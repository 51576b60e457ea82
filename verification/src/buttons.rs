//! The shared button state written by the hardware sampling task, and the
//! threshold table that classifies a raw scalar reading into button flags.

use vstd::prelude::*;

verus! {

/// The discrete identities that a raw scalar reading can classify to.
/// `NoButton` stands for no button at all: it owns no flag.
#[derive(Debug, PartialEq, Eq, Structural, Clone, Copy)]
pub enum ButtonTypes {
    NoButton,
    VolUp,
    VolDown,
    Play,
    Menu,
}

/// The shared signal state: one flag per button. Exactly one background task
/// writes it and the sampling bridge reads it; the mutual-exclusion boundary
/// around a shared instance belongs to the caller.
#[derive(Debug, PartialEq, Eq, Structural, Clone, Copy)]
pub struct Buttons {
    pub menu: bool,
    pub play: bool,
    pub vol_up: bool,
    pub vol_dn: bool,
}

/// One entry of the threshold classification table: a raw reading matches
/// `button` iff it lies in the inclusive range `min_adc_val ..= max_adc_val`.
/// The table is ordered and fixed for the process lifetime; its ranges may
/// overlap, and a reading may match several entries or none.
#[derive(Debug, PartialEq, Eq, Structural, Clone, Copy)]
pub struct KeyConfig {
    pub button: ButtonTypes,
    pub min_adc_val: u16,
    pub max_adc_val: u16,
}

/// Whether the raw reading lies in the entry's inclusive range.
pub open spec fn in_range(entry: KeyConfig, reading: u16) -> bool {
    entry.min_adc_val <= reading <= entry.max_adc_val
}

/// The flag of `buttons` that belongs to `button`; `NoButton` owns none.
pub open spec fn button_flag(buttons: Buttons, button: ButtonTypes) -> bool {
    match button {
        ButtonTypes::NoButton => false,
        ButtonTypes::VolUp => buttons.vol_up,
        ButtonTypes::VolDown => buttons.vol_dn,
        ButtonTypes::Play => buttons.play,
        ButtonTypes::Menu => buttons.menu,
    }
}

/// `buttons` with the flag of `button` set to `value`; `NoButton` changes
/// nothing.
pub open spec fn with_button_flag(buttons: Buttons, button: ButtonTypes, value: bool) -> Buttons {
    match button {
        ButtonTypes::NoButton => buttons,
        ButtonTypes::VolUp => Buttons { vol_up: value, ..buttons },
        ButtonTypes::VolDown => Buttons { vol_dn: value, ..buttons },
        ButtonTypes::Play => Buttons { play: value, ..buttons },
        ButtonTypes::Menu => Buttons { menu: value, ..buttons },
    }
}

/// The state after the entries of `table` have been applied in order to
/// `buttons`: each entry sets its button's flag to whether `reading` lies in
/// its range, so when a button has several entries the last one decides.
pub open spec fn classified(buttons: Buttons, table: Seq<KeyConfig>, reading: u16) -> Buttons
    decreases table.len(),
{
    if table.len() == 0 {
        buttons
    } else {
        classified(
            with_button_flag(buttons, table[0].button, in_range(table[0], reading)),
            table.drop_first(),
            reading,
        )
    }
}

impl Buttons {
    /// Overwrites every flag at once.
    pub fn set_state(&mut self, menu: bool, play: bool, vol_up: bool, vol_dn: bool)
        ensures
            final(self).menu == menu,
            final(self).play == play,
            final(self).vol_up == vol_up,
            final(self).vol_dn == vol_dn,
    {
        self.menu = menu;
        self.play = play;
        self.vol_up = vol_up;
        self.vol_dn = vol_dn;
    }

    /// Sets every flag to the same value.
    pub fn reset_state(&mut self, value: bool)
        ensures
            final(self).menu == value,
            final(self).play == value,
            final(self).vol_up == value,
            final(self).vol_dn == value,
    {
        self.set_state(value, value, value, value);
    }

    /// Sets the one flag that `button` owns and leaves the others alone.
    pub fn set_button_state(&mut self, button: ButtonTypes, value: bool)
        requires
            button != ButtonTypes::NoButton,
        ensures
            *final(self) == with_button_flag(*old(self), button, value),
    {
        match button {
            ButtonTypes::NoButton => unreached(),
            ButtonTypes::VolUp => self.vol_up = value,
            ButtonTypes::VolDown => self.vol_dn = value,
            ButtonTypes::Play => self.play = value,
            ButtonTypes::Menu => self.menu = value,
        }
    }

    /// Classifies one raw reading against the whole table: every entry, in
    /// table order, sets its button's flag to whether the reading lies in
    /// that entry's range. A reading that matches no entry leaves every
    /// listed button inactive; one that matches several marks them all.
    pub fn apply_reading(&mut self, table: &Vec<KeyConfig>, reading: u16)
        requires
            forall|i: int|
                0 <= i < table@.len() ==> table@[i].button != ButtonTypes::NoButton,
        ensures
            *final(self) == classified(*old(self), table@, reading),
    {
        let ghost entry_state: Buttons = *self;
        proof {
            assert(table@.skip(0) =~= table@);
        }
        let mut idx: usize = 0;
        while idx < table.len()
            invariant
                idx <= table@.len(),
                forall|i: int|
                    0 <= i < table@.len() ==> table@[i].button != ButtonTypes::NoButton,
                classified(entry_state, table@, reading) == classified(
                    *self,
                    table@.skip(idx as int),
                    reading,
                ),
            decreases table@.len() - idx,
        {
            let entry = table[idx];
            let active = entry.min_adc_val <= reading && reading <= entry.max_adc_val;
            proof {
                assert(table@.skip(idx as int)[0] == table@[idx as int]);
                assert(table@.skip(idx as int).drop_first() =~= table@.skip(idx as int + 1));
            }
            self.set_button_state(entry.button, active);
            idx = idx + 1;
        }
        proof {
            assert(table@.skip(table@.len() as int) =~= Seq::<KeyConfig>::empty());
        }
    }
}

/// When every button occurs at most once in the table, classification reads
/// pointwise: a listed button's flag becomes exactly "the reading lies in its
/// entry's range", and an unlisted button's flag is untouched.
pub proof fn lemma_classified_pointwise(buttons: Buttons, table: Seq<KeyConfig>, reading: u16)
    requires
        forall|i: int| 0 <= i < table.len() ==> table[i].button != ButtonTypes::NoButton,
        forall|i: int, j: int|
            0 <= i < j < table.len() ==> table[i].button != table[j].button,
    ensures
        forall|i: int|
            0 <= i < table.len() ==> button_flag(
                classified(buttons, table, reading),
                table[i].button,
            ) == in_range(table[i], reading),
        forall|b: ButtonTypes|
            (forall|i: int| 0 <= i < table.len() ==> table[i].button != b) ==> button_flag(
                classified(buttons, table, reading),
                b,
            ) == button_flag(buttons, b),
    decreases table.len(),
{
    if table.len() > 0 {
        let head = table[0];
        let rest = table.drop_first();
        let stepped = with_button_flag(buttons, head.button, in_range(head, reading));
        lemma_classified_pointwise(stepped, rest, reading);
        let outcome = classified(buttons, table, reading);
        assert(outcome == classified(stepped, rest, reading));
        assert(forall|j: int| 0 <= j < rest.len() ==> rest[j].button != head.button);
        assert(button_flag(outcome, head.button) == button_flag(stepped, head.button));
        assert forall|i: int| 0 <= i < table.len() implies button_flag(
            outcome,
            table[i].button,
        ) == in_range(table[i], reading) by {
            if i > 0 {
                assert(rest[i - 1] == table[i]);
            }
        }
        assert forall|b: ButtonTypes|
            (forall|i: int| 0 <= i < table.len() ==> table[i].button != b) implies button_flag(
            outcome,
            b,
        ) == button_flag(buttons, b) by {
            assert(table[0].button != b);
            assert(forall|j: int| 0 <= j < rest.len() ==> rest[j].button != b);
            assert(button_flag(outcome, b) == button_flag(stepped, b));
            assert(button_flag(stepped, b) == button_flag(buttons, b));
        }
    }
}

} // verus!
