//! Fake "buffs" that are really triggers for combo actions.
use super::{Buff, DurationalBuff};
use vstd::prelude::*;

verus! {

/// A collection of the combo triggers.
#[derive(Clone, Copy, Hash, Debug, Eq, PartialEq, Default, Structural)]
pub struct ComboTriggers {
    pub basic_touch: BasicTouchCombo,
    pub observation: ObservationCombo,
}

impl ComboTriggers {
    pub open spec fn spec_new() -> Self {
        ComboTriggers { basic_touch: BasicTouchCombo::Inactive, observation: ObservationCombo::Inactive }
    }

    /// No combo in progress.
    pub fn new() -> (r: Self)
        ensures
            r == Self::spec_new(),
    {
        ComboTriggers { basic_touch: BasicTouchCombo::Inactive, observation: ObservationCombo::Inactive }
    }

    pub open spec fn spec_decayed(self) -> Self {
        ComboTriggers { basic_touch: BasicTouchCombo::Inactive, observation: ObservationCombo::Inactive }
    }

    /// Ends every combo: a combo only carries over to the very next action.
    pub fn decay(&mut self)
        ensures
            *final(self) == old(self).spec_decayed(),
    {
        self.basic_touch.decay_in_place();
        self.observation.decay_in_place();
    }
}

/// The combo chain started by Basic Touch: `BasicTouch` after Basic Touch, and
/// `StandardTouch` after a Standard Touch that followed a Basic Touch.
#[derive(Clone, Copy, Debug, Hash, PartialEq, Eq, Default, Structural)]
pub enum BasicTouchCombo {
    #[default]
    Inactive,
    BasicTouch,
    StandardTouch,
}

impl Buff for BasicTouchCombo {
    open spec fn spec_active(&self) -> bool {
        *self != BasicTouchCombo::Inactive
    }

    fn is_active(&self) -> (r: bool) {
        !matches!(self, BasicTouchCombo::Inactive)
    }
}

impl DurationalBuff for BasicTouchCombo {
    open spec fn spec_turns(&self) -> nat {
        if *self == BasicTouchCombo::Inactive {
            0
        } else {
            1
        }
    }

    open spec fn spec_base_duration() -> u8 {
        1
    }

    open spec fn spec_activation_turns(bonus: u8) -> nat {
        1
    }

    open spec fn spec_bonus_allowed(bonus: u8) -> bool {
        true
    }

    /// Activation always starts the chain over at Basic Touch.
    open spec fn spec_activated(self, bonus: u8) -> Self {
        BasicTouchCombo::BasicTouch
    }

    open spec fn spec_decayed(self) -> Self {
        BasicTouchCombo::Inactive
    }

    open spec fn spec_wf(&self) -> bool {
        true
    }

    proof fn lemma_turns_active(self) {
    }

    proof fn lemma_activated(self, bonus: u8) {
    }

    proof fn lemma_decayed(self) {
    }

    fn base_duration() -> (r: u8) {
        1
    }

    fn activate(self, bonus: u8) -> (r: Self) {
        BasicTouchCombo::BasicTouch
    }

    fn decay(self) -> (r: Self) {
        BasicTouchCombo::Inactive
    }
}

/// The trigger left by Observe, which makes the next focused action certain to succeed.
#[derive(Clone, Copy, Debug, Hash, PartialEq, Eq, Default, Structural)]
pub enum ObservationCombo {
    #[default]
    Inactive,
    Active,
}

impl Buff for ObservationCombo {
    open spec fn spec_active(&self) -> bool {
        *self == ObservationCombo::Active
    }

    fn is_active(&self) -> (r: bool) {
        matches!(self, ObservationCombo::Active)
    }
}

impl DurationalBuff for ObservationCombo {
    open spec fn spec_turns(&self) -> nat {
        if *self == ObservationCombo::Active {
            1
        } else {
            0
        }
    }

    open spec fn spec_base_duration() -> u8 {
        1
    }

    open spec fn spec_activation_turns(bonus: u8) -> nat {
        1
    }

    open spec fn spec_bonus_allowed(bonus: u8) -> bool {
        true
    }

    open spec fn spec_activated(self, bonus: u8) -> Self {
        ObservationCombo::Active
    }

    open spec fn spec_decayed(self) -> Self {
        ObservationCombo::Inactive
    }

    open spec fn spec_wf(&self) -> bool {
        true
    }

    proof fn lemma_turns_active(self) {
    }

    proof fn lemma_activated(self, bonus: u8) {
    }

    proof fn lemma_decayed(self) {
    }

    fn base_duration() -> (r: u8) {
        1
    }

    fn activate(self, bonus: u8) -> (r: Self) {
        ObservationCombo::Active
    }

    fn decay(self) -> (r: Self) {
        ObservationCombo::Inactive
    }
}

} // verus!
