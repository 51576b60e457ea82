use sensor_stream::buttons::{ButtonTypes, Buttons, KeyConfig};

fn all_off() -> Buttons {
    Buttons { menu: false, play: false, vol_up: false, vol_dn: false }
}

fn standard_table() -> Vec<KeyConfig> {
    vec![
        KeyConfig { button: ButtonTypes::VolUp, min_adc_val: 0, max_adc_val: 375 },
        KeyConfig { button: ButtonTypes::VolDown, min_adc_val: 750, max_adc_val: 850 },
        KeyConfig { button: ButtonTypes::Play, min_adc_val: 1900, max_adc_val: 2000 },
        KeyConfig { button: ButtonTypes::Menu, min_adc_val: 2350, max_adc_val: 2450 },
    ]
}

#[test]
fn test_button_state() {
    let mut buttons = Buttons {
        menu: false,
        play: false,
        vol_up: false,
        vol_dn: false,
    };
    buttons.set_state(true, false, false, false);
    assert_eq!(buttons.menu, true);
}

#[test]
fn set_state_overwrites_every_flag() {
    let mut buttons = all_off();
    buttons.set_state(true, false, true, false);
    assert_eq!(
        buttons,
        Buttons { menu: true, play: false, vol_up: true, vol_dn: false }
    );
}

#[test]
fn reset_state_sets_every_flag_to_one_value() {
    let mut buttons = all_off();
    buttons.reset_state(true);
    assert_eq!(
        buttons,
        Buttons { menu: true, play: true, vol_up: true, vol_dn: true }
    );
    buttons.reset_state(false);
    assert_eq!(buttons, all_off());
}

#[test]
fn set_button_state_touches_only_its_flag() {
    let mut buttons = all_off();
    buttons.set_button_state(ButtonTypes::VolUp, true);
    assert_eq!(
        buttons,
        Buttons { menu: false, play: false, vol_up: true, vol_dn: false }
    );
    buttons.set_button_state(ButtonTypes::VolDown, true);
    buttons.set_button_state(ButtonTypes::Play, true);
    buttons.set_button_state(ButtonTypes::Menu, true);
    assert_eq!(
        buttons,
        Buttons { menu: true, play: true, vol_up: true, vol_dn: true }
    );
    buttons.set_button_state(ButtonTypes::Play, false);
    assert_eq!(
        buttons,
        Buttons { menu: true, play: false, vol_up: true, vol_dn: true }
    );
}

#[test]
fn classification_marks_the_matching_range() {
    let table = standard_table();

    let mut buttons = all_off();
    buttons.apply_reading(&table, 100);
    assert_eq!(
        buttons,
        Buttons { menu: false, play: false, vol_up: true, vol_dn: false }
    );

    let mut buttons = all_off();
    buttons.apply_reading(&table, 800);
    assert_eq!(
        buttons,
        Buttons { menu: false, play: false, vol_up: false, vol_dn: true }
    );

    let mut buttons = all_off();
    buttons.apply_reading(&table, 1950);
    assert_eq!(
        buttons,
        Buttons { menu: false, play: true, vol_up: false, vol_dn: false }
    );

    let mut buttons = all_off();
    buttons.apply_reading(&table, 2400);
    assert_eq!(
        buttons,
        Buttons { menu: true, play: false, vol_up: false, vol_dn: false }
    );
}

#[test]
fn classification_bounds_are_inclusive() {
    let table = standard_table();

    let mut buttons = all_off();
    buttons.apply_reading(&table, 375);
    assert!(buttons.vol_up);

    let mut buttons = all_off();
    buttons.apply_reading(&table, 376);
    assert_eq!(buttons, all_off());

    let mut buttons = all_off();
    buttons.apply_reading(&table, 750);
    assert!(buttons.vol_dn);
}

#[test]
fn classification_with_no_match_leaves_all_flags_false() {
    let table = standard_table();
    let mut buttons = all_off();
    buttons.apply_reading(&table, 500);
    assert_eq!(buttons, all_off());
}

#[test]
fn classification_clears_a_released_button() {
    let table = standard_table();
    let mut buttons = all_off();
    buttons.apply_reading(&table, 100);
    assert!(buttons.vol_up);
    buttons.apply_reading(&table, 500);
    assert!(!buttons.vol_up);
}

#[test]
fn overlapping_ranges_mark_every_match() {
    // the table is not assumed mutually exclusive: a reading inside two
    // ranges marks both buttons active
    let table = vec![
        KeyConfig { button: ButtonTypes::VolUp, min_adc_val: 0, max_adc_val: 500 },
        KeyConfig { button: ButtonTypes::Play, min_adc_val: 400, max_adc_val: 900 },
    ];
    let mut buttons = all_off();
    buttons.apply_reading(&table, 450);
    assert_eq!(
        buttons,
        Buttons { menu: false, play: true, vol_up: true, vol_dn: false }
    );
}
