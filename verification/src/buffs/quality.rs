//! Buffs that modify the effects of actions on quality, such as Inner Quiet.
use super::{Buff, ConsumableBuff, DurationalBuff};
use vstd::prelude::*;

verus! {

/// The most stacks Inner Quiet can have.
pub const MAX_IQ: u8 = 10;

/// All the quality buffs together.
#[derive(Clone, Copy, Hash, Debug, Eq, PartialEq, Default, Structural)]
pub struct QualityBuffs {
    pub inner_quiet: InnerQuiet,
    pub great_strides: GreatStrides,
    pub innovation: Innovation,
}

impl QualityBuffs {
    /// Inner Quiet holds at most ten stacks.
    pub open spec fn wf(&self) -> bool {
        self.inner_quiet.0 <= MAX_IQ
    }

    pub open spec fn spec_new() -> Self {
        QualityBuffs {
            inner_quiet: InnerQuiet(0),
            great_strides: GreatStrides(0),
            innovation: Innovation(0),
        }
    }

    /// No quality buff active.
    pub fn new() -> (r: Self)
        ensures
            r == Self::spec_new(),
            r.wf(),
    {
        QualityBuffs {
            inner_quiet: InnerQuiet(0),
            great_strides: GreatStrides(0),
            innovation: Innovation(0),
        }
    }

    /// Great Strides and Innovation lose a turn; Inner Quiet does not tick down.
    pub open spec fn spec_decayed(self) -> Self {
        QualityBuffs {
            great_strides: self.great_strides.spec_decayed(),
            innovation: self.innovation.spec_decayed(),
            ..self
        }
    }

    /// Causes all durational quality buffs to tick down by one.
    pub fn decay(&mut self)
        ensures
            *final(self) == old(self).spec_decayed(),
    {
        self.great_strides.decay_in_place();
        self.innovation.decay_in_place();
    }

    /// The efficiency multiplier, in percent, of these buffs: Inner Quiet's bonus scaled
    /// by the sum of 100 and the modifiers of Great Strides and Innovation, rounded down.
    pub open spec fn spec_efficiency_mod(self) -> u32 {
        (self.inner_quiet.spec_efficiency_bonus() * (100 + self.great_strides.spec_efficiency_mod()
            + self.innovation.spec_efficiency_mod()) / 100) as u32
    }

    /// Calculates the efficiency multiplier granted by these buffs.
    pub fn efficiency_mod(&self) -> (r: u32)
        requires
            self.wf(),
        ensures
            r == self.spec_efficiency_mod(),
            100 <= r <= 500,
    {
        let iq = self.inner_quiet.efficiency_bonus();
        let sum = 100 + self.great_strides.efficiency_mod() + self.innovation.efficiency_mod();
        assert(iq * sum <= 200 * 250) by (nonlinear_arith)
            requires
                iq <= 200,
                sum <= 250,
        ;
        assert(iq * sum >= 100 * 100) by (nonlinear_arith)
            requires
                iq >= 100,
                sum >= 100,
        ;
        iq * sum / 100
    }
}

/// A buff that raises the efficiency of quality actions by a fixed percentage while it
/// is active.
pub trait QualityEfficiencyMod: DurationalBuff {
    /// The bonus in percent (100 means the efficiency is doubled).
    spec fn spec_modifier() -> u32;

    fn modifier() -> (r: u32)
        ensures
            r == Self::spec_modifier(),
    ;

    /// The modifier if the buff is active, otherwise 0.
    fn efficiency_mod(&self) -> (r: u32)
        ensures
            r == (if self.spec_active() { Self::spec_modifier() } else { 0 }),
    {
        if self.is_active() {
            Self::modifier()
        } else {
            0
        }
    }
}

/// Inner Quiet: each stack, up to ten, gives 10% more efficiency to quality actions,
/// and Byregot's Blessing draws on the stacks.
#[derive(Clone, Copy, Hash, Debug, Eq, PartialEq, Default, Structural)]
pub struct InnerQuiet(pub u8);

impl InnerQuiet {
    /// The number of stacks.
    pub fn stacks(&self) -> (r: u8)
        ensures
            r == self.0,
    {
        self.0
    }

    pub open spec fn spec_efficiency_bonus(self) -> u32 {
        (100 + self.0 * 10) as u32
    }

    /// The efficiency bonus in percent: 100 plus 10 for each stack.
    pub fn efficiency_bonus(&self) -> (r: u32)
        requires
            self.0 <= MAX_IQ,
        ensures
            r == self.spec_efficiency_bonus(),
            100 <= r <= 200,
    {
        100 + (self.0 as u32) * 10
    }

    pub open spec fn spec_plus(self, n: u8) -> Self {
        if self.0 + n > MAX_IQ {
            InnerQuiet(MAX_IQ)
        } else {
            InnerQuiet((self.0 + n) as u8)
        }
    }

    /// Adds `n` stacks, keeping at most ten.
    pub fn plus(self, n: u8) -> (r: Self)
        ensures
            r == self.spec_plus(n),
            r.0 <= MAX_IQ,
    {
        if self.0 as u16 + n as u16 > MAX_IQ as u16 {
            InnerQuiet(MAX_IQ)
        } else {
            InnerQuiet(self.0 + n)
        }
    }
}

impl std::ops::Add<u8> for InnerQuiet {
    type Output = Self;

    /// Adds `rhs` stacks, keeping at most ten.
    fn add(self, rhs: u8) -> (r: Self)
        ensures
            r == self.spec_plus(rhs),
    {
        self.plus(rhs)
    }
}

impl vstd::std_specs::ops::AddSpecImpl<u8> for InnerQuiet {
    open spec fn obeys_add_spec() -> bool {
        true
    }

    open spec fn add_req(self, rhs: u8) -> bool {
        true
    }

    open spec fn add_spec(self, rhs: u8) -> Self {
        self.spec_plus(rhs)
    }
}

impl std::ops::AddAssign<u8> for InnerQuiet {
    /// Adds `rhs` stacks in place, keeping at most ten.
    fn add_assign(&mut self, rhs: u8)
        ensures
            *final(self) == old(self).spec_plus(rhs),
    {
        *self = self.plus(rhs);
    }
}

impl Buff for InnerQuiet {
    open spec fn spec_active(&self) -> bool {
        self.0 > 0
    }

    fn is_active(&self) -> (r: bool) {
        self.0 > 0
    }
}

impl ConsumableBuff for InnerQuiet {
    open spec fn spec_remaining(&self) -> u8 {
        self.0
    }

    open spec fn spec_deactivated(self) -> Self {
        InnerQuiet(0)
    }

    fn deactivate(self) -> (r: (Self, u8)) {
        (InnerQuiet(0), self.0)
    }
}

/// The buff of the action Great Strides: the next quality action within 3 turns is
/// twice as efficient, and consumes the buff.
#[derive(Clone, Copy, Hash, Debug, Eq, PartialEq, Default, Structural)]
pub struct GreatStrides(pub u8);

impl GreatStrides {
    pub open spec fn spec_efficiency_mod(self) -> u32 {
        if self.0 > 0 { 100 } else { 0 }
    }
}

impl QualityEfficiencyMod for GreatStrides {
    open spec fn spec_modifier() -> u32 {
        100
    }

    fn modifier() -> (r: u32) {
        100
    }
}

/// The buff of the action Innovation: quality actions are half again as efficient for
/// 4 turns.
#[derive(Clone, Copy, Hash, Debug, Eq, PartialEq, Default, Structural)]
pub struct Innovation(pub u8);

impl Innovation {
    pub open spec fn spec_efficiency_mod(self) -> u32 {
        if self.0 > 0 { 50 } else { 0 }
    }
}

impl QualityEfficiencyMod for Innovation {
    open spec fn spec_modifier() -> u32 {
        50
    }

    fn modifier() -> (r: u32) {
        50
    }
}

impl Buff for GreatStrides {
    open spec fn spec_active(&self) -> bool {
        self.0 > 0
    }

    fn is_active(&self) -> (r: bool) {
        self.0 > 0
    }
}

impl DurationalBuff for GreatStrides {
    open spec fn spec_turns(&self) -> nat {
        self.0 as nat
    }

    open spec fn spec_base_duration() -> u8 {
        3
    }

    open spec fn spec_activation_turns(bonus: u8) -> nat {
        (3 + bonus) as nat
    }

    open spec fn spec_bonus_allowed(bonus: u8) -> bool {
        3 + bonus <= 255
    }

    open spec fn spec_activated(self, bonus: u8) -> Self {
        GreatStrides((3 + bonus) as u8)
    }

    open spec fn spec_decayed(self) -> Self {
        if self.0 == 0 {
            GreatStrides(0)
        } else {
            GreatStrides((self.0 - 1) as u8)
        }
    }

    open spec fn spec_wf(&self) -> bool {
        true
    }

    proof fn lemma_turns_active(self) {
    }

    proof fn lemma_activated(self, bonus: u8) {
    }

    proof fn lemma_decayed(self) {
    }

    fn base_duration() -> (r: u8) {
        3
    }

    fn activate(self, bonus: u8) -> (r: Self) {
        GreatStrides(3 + bonus)
    }

    fn decay(self) -> (r: Self) {
        if self.0 == 0 {
            GreatStrides(0)
        } else {
            GreatStrides(self.0 - 1)
        }
    }
}

impl ConsumableBuff for GreatStrides {
    open spec fn spec_remaining(&self) -> u8 {
        self.0
    }

    open spec fn spec_deactivated(self) -> Self {
        GreatStrides(0)
    }

    fn deactivate(self) -> (r: (Self, u8)) {
        (GreatStrides(0), self.0)
    }
}


impl Buff for Innovation {
    open spec fn spec_active(&self) -> bool {
        self.0 > 0
    }

    fn is_active(&self) -> (r: bool) {
        self.0 > 0
    }
}

impl DurationalBuff for Innovation {
    open spec fn spec_turns(&self) -> nat {
        self.0 as nat
    }

    open spec fn spec_base_duration() -> u8 {
        4
    }

    open spec fn spec_activation_turns(bonus: u8) -> nat {
        (4 + bonus) as nat
    }

    open spec fn spec_bonus_allowed(bonus: u8) -> bool {
        4 + bonus <= 255
    }

    open spec fn spec_activated(self, bonus: u8) -> Self {
        Innovation((4 + bonus) as u8)
    }

    open spec fn spec_decayed(self) -> Self {
        if self.0 == 0 {
            Innovation(0)
        } else {
            Innovation((self.0 - 1) as u8)
        }
    }

    open spec fn spec_wf(&self) -> bool {
        true
    }

    proof fn lemma_turns_active(self) {
    }

    proof fn lemma_activated(self, bonus: u8) {
    }

    proof fn lemma_decayed(self) {
    }

    fn base_duration() -> (r: u8) {
        4
    }

    fn activate(self, bonus: u8) -> (r: Self) {
        Innovation(4 + bonus)
    }

    fn decay(self) -> (r: Self) {
        if self.0 == 0 {
            Innovation(0)
        } else {
            Innovation(self.0 - 1)
        }
    }
}


} // verus!
