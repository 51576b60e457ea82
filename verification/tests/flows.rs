use sensor_stream::edge::GoesActive;
use sensor_stream::logic::{AndFlow, NotFlow, OrFlow};
use sensor_stream::producer::{collect_values, Producer, Step, VecSource};
use sensor_stream::window::Window;

#[test]
fn test_numeric_flow_with_not_fn() {
    let values = vec![false, true, false, true];

    let mut s = NotFlow::new(VecSource::new(values));
    let result = collect_values(&mut s);
    assert_eq!(vec![true, false, true, false], result);
}

#[test]
fn test_pairs_with_zip() {
    let values = vec![false, true, true, true, false];
    let values2 = vec![true, false, true, true, false];
    let expected = vec![true, true, true, true, false];

    let mut s = OrFlow::new(VecSource::new(values), VecSource::new(values2));
    let result = collect_values(&mut s);
    assert_eq!(expected, result);
}

#[test]
fn test_pairs_with_or() {
    let values = vec![false, true, true, true, false];
    let values2 = vec![true, false, true, true, false];
    let expected = vec![true, true, true, true, false];

    let mut s = OrFlow::new(VecSource::new(values), VecSource::new(values2));
    let result = collect_values(&mut s);
    assert_eq!(expected, result);
}

#[test]
fn test_pairs_with_and() {
    let values = vec![false, true, true, true, false];
    let values2 = vec![true, false, true, true, false];
    let expected = vec![false, false, true, true, false];

    let mut s = AndFlow::new(VecSource::new(values), VecSource::new(values2));
    let result = collect_values(&mut s);
    assert_eq!(expected, result);
}

#[test]
fn test_goes_active() {
    let values = vec![false, true, true, true, false];
    let expected = vec![true];

    let mut s = GoesActive::new(VecSource::new(values));
    let result = collect_values(&mut s);
    assert_eq!(expected, result);
}

#[test]
fn test_goes_active_trait() {
    let values = vec![false, true, true, true, false];
    let expected = vec![true];

    let mut s = GoesActive::new(VecSource::new(values));
    let result = collect_values(&mut s);
    assert_eq!(expected, result);
}

#[test]
fn window_emits_all_consecutive_pairs() {
    let values = vec![0, 1, 1, 1, 2, 3, 4];
    let mut w = Window::new(VecSource::new(values));
    let result = collect_values(&mut w);
    assert_eq!(vec![(0, 1), (1, 1), (1, 1), (1, 2), (2, 3), (3, 4)], result);
}

#[test]
fn window_of_empty_input_is_empty() {
    let values: Vec<u32> = vec![];
    let mut w = Window::new(VecSource::new(values));
    let result = collect_values(&mut w);
    assert!(result.is_empty());
}

#[test]
fn window_of_single_value_is_empty() {
    // a lone buffered value never becomes a fractional pair
    let mut w = Window::new(VecSource::new(vec![7u32]));
    let result = collect_values(&mut w);
    assert!(result.is_empty());
}

#[test]
fn window_of_two_values_is_one_pair() {
    let mut w = Window::new(VecSource::new(vec![4u32, 9]));
    let result = collect_values(&mut w);
    assert_eq!(vec![(4, 9)], result);
}

#[test]
fn window_buffers_first_value_and_asks_again() {
    // the first source value produces "ask me again at once", not a pair
    let mut w = Window::new(VecSource::new(vec![1u32, 2]));
    assert!(matches!(w.next(), Step::NotYet));
    assert!(matches!(w.next(), Step::Emit((1, 2))));
    assert!(matches!(w.next(), Step::Done));
}

#[test]
fn window_termination_follows_source() {
    let mut w = Window::new(VecSource::new(vec![1u32]));
    assert!(!w.is_terminated());
    assert!(matches!(w.next(), Step::NotYet));
    assert!(w.is_terminated());
    assert!(matches!(w.next(), Step::Done));
}

#[test]
fn not_applied_twice_restores_the_sequence() {
    let values = vec![true, true, false, true, false, false];
    let mut s = NotFlow::new(NotFlow::new(VecSource::new(values.clone())));
    let result = collect_values(&mut s);
    assert_eq!(values, result);
}

#[test]
fn combinators_truncate_at_the_shorter_input() {
    // misaligned inputs are not detected: the output simply ends with the
    // shorter producer
    let mut o = OrFlow::new(
        VecSource::new(vec![false, true, true]),
        VecSource::new(vec![true]),
    );
    assert_eq!(vec![true], collect_values(&mut o));

    let mut a = AndFlow::new(
        VecSource::new(vec![true]),
        VecSource::new(vec![true, false, false]),
    );
    assert_eq!(vec![true], collect_values(&mut a));
}

#[test]
fn goes_active_emits_nothing_for_constant_signals() {
    let mut all_false = GoesActive::new(VecSource::new(vec![false; 5]));
    assert!(collect_values(&mut all_false).is_empty());

    let mut all_true = GoesActive::new(VecSource::new(vec![true; 5]));
    assert!(collect_values(&mut all_true).is_empty());

    let mut lone_true = GoesActive::new(VecSource::new(vec![true]));
    assert!(collect_values(&mut lone_true).is_empty());

    let mut lone_false = GoesActive::new(VecSource::new(vec![false]));
    assert!(collect_values(&mut lone_false).is_empty());
}

#[test]
fn goes_active_ignores_falling_transitions() {
    let mut s = GoesActive::new(VecSource::new(vec![true, false, false]));
    assert!(collect_values(&mut s).is_empty());
}

#[test]
fn goes_active_emits_once_per_rising_transition() {
    let values = vec![false, true, false, true, true, false, true];
    let mut s = GoesActive::new(VecSource::new(values));
    assert_eq!(vec![true, true, true], collect_values(&mut s));
}

#[test]
fn rewindowing_projected_pairs_windows_the_tail() {
    // take an edge-detected sequence, window it, project the pairs back to
    // scalars by their second components, and window again: the result is
    // the windowing of the derived sequence's tail
    let mut edges = GoesActive::new(VecSource::new(vec![
        false, true, false, true, false, true,
    ]));
    let derived = collect_values(&mut edges);
    assert_eq!(vec![true, true, true], derived);

    let mut first = Window::new(VecSource::new(derived.clone()));
    let paired = collect_values(&mut first);
    let projected: Vec<bool> = paired.iter().map(|p| p.1).collect();
    assert_eq!(derived[1..].to_vec(), projected);

    let mut again = Window::new(VecSource::new(projected));
    let repaired = collect_values(&mut again);
    let mut tail = Window::new(VecSource::new(derived[1..].to_vec()));
    assert_eq!(collect_values(&mut tail), repaired);
}
