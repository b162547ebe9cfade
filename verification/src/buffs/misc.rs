//! Miscellaneous state kept with the buffs: the specialist delineations and Heart and
//! Soul.
use super::{Buff, ConsumableBuff};
use vstd::prelude::*;

verus! {

/// The most delineations a specialist can use in one craft.
pub const MAX_DELINEATIONS: u8 = 3;

/// Whether the crafter can use specialist actions, and how many delineations are left.
#[derive(Clone, Copy, PartialEq, Eq, Hash, Debug, Default, Structural)]
pub enum SpecialistActions {
    #[default]
    NotSpecialist,
    Unavailable,
    Availalble(u8),
}

impl SpecialistActions {
    /// A specialist listed as able to act has between 1 and 3 delineations left.
    pub open spec fn wf(&self) -> bool {
        match *self {
            SpecialistActions::Availalble(n) => 1 <= n <= MAX_DELINEATIONS,
            _ => true,
        }
    }

    /// Whether specialist actions can be used. Only a well-formed value is asked: one
    /// listed as available has between 1 and 3 delineations.
    pub fn actions_available(&self) -> (r: bool)
        requires
            self.wf(),
        ensures
            r == (*self is Availalble),
    {
        matches!(self, SpecialistActions::Availalble(_))
    }

    /// Whether specialist actions cannot be used (out of delineations, or not a
    /// specialist).
    pub fn actions_unavailable(&self) -> (r: bool)
        ensures
            r == !(*self is Availalble),
    {
        matches!(self, SpecialistActions::Unavailable | SpecialistActions::NotSpecialist)
    }

    /// One delineation spent: the last one makes the actions unavailable, and a crafter
    /// without delineations is unchanged.
    pub open spec fn spec_spend(self) -> Self {
        match self {
            SpecialistActions::Availalble(n) => if n <= 1 {
                SpecialistActions::Unavailable
            } else {
                SpecialistActions::Availalble((n - 1) as u8)
            },
            _ => self,
        }
    }

    /// Spends one delineation: the last one makes the actions unavailable, and a
    /// crafter without delineations is unchanged.
    pub fn spend(self) -> (r: Self)
        ensures
            r == self.spec_spend(),
            self.wf() ==> r.wf(),
    {
        match self {
            SpecialistActions::Availalble(n) => if n <= 1 {
                SpecialistActions::Unavailable
            } else {
                SpecialistActions::Availalble(n - 1)
            },
            SpecialistActions::NotSpecialist => SpecialistActions::NotSpecialist,
            SpecialistActions::Unavailable => SpecialistActions::Unavailable,
        }
    }
}

impl std::ops::Sub<u8> for SpecialistActions {
    type Output = Self;

    /// Spends one delineation (`rhs` must be 1: only one can be spent at a time) from a
    /// well-formed value.
    fn sub(self, rhs: u8) -> (r: Self)
        ensures
            r == self.spec_spend(),
    {
        self.spend()
    }
}

impl vstd::std_specs::ops::SubSpecImpl<u8> for SpecialistActions {
    open spec fn obeys_sub_spec() -> bool {
        true
    }

    open spec fn sub_req(self, rhs: u8) -> bool {
        rhs == 1 && self.wf()
    }

    open spec fn sub_spec(self, rhs: u8) -> Self {
        self.spec_spend()
    }
}

impl std::ops::SubAssign<u8> for SpecialistActions {
    /// Spends one delineation in place. An operator in place can ask nothing of its
    /// operands, so here `rhs` is not looked at: one delineation is spent whatever it is.
    fn sub_assign(&mut self, rhs: u8)
        ensures
            *final(self) == old(self).spec_spend(),
            old(self).wf() ==> final(self).wf(),
    {
        *self = self.spend();
    }
}

/// The buff of the specialist action Heart and Soul: the next action that needs a
/// Good or Excellent condition can be used whatever the condition. It lasts until used.
#[derive(Clone, Copy, Hash, Debug, Eq, PartialEq, Default, Structural)]
pub enum HeartAndSoul {
    #[default]
    Inactive,
    Active,
}

impl HeartAndSoul {
    /// Returns the activated buff.
    pub fn activate(self) -> (r: Self)
        ensures
            r == HeartAndSoul::Active,
    {
        HeartAndSoul::Active
    }

    /// Activates the buff in place.
    pub fn activate_in_place(&mut self)
        ensures
            *final(self) == HeartAndSoul::Active,
    {
        *self = HeartAndSoul::Active;
    }
}

impl Buff for HeartAndSoul {
    open spec fn spec_active(&self) -> bool {
        *self == HeartAndSoul::Active
    }

    fn is_active(&self) -> (r: bool) {
        matches!(self, HeartAndSoul::Active)
    }
}

impl ConsumableBuff for HeartAndSoul {
    /// Heart and Soul has no duration: consuming it hands back `u8::MAX`.
    open spec fn spec_remaining(&self) -> u8 {
        u8::MAX
    }

    open spec fn spec_deactivated(self) -> Self {
        HeartAndSoul::Inactive
    }

    fn deactivate(self) -> (r: (Self, u8)) {
        (HeartAndSoul::Inactive, u8::MAX)
    }
}

} // verus!
