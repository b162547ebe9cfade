//! Buffs that modify the effects of actions on durability, such as Waste Not.
use super::{Buff, ConsumableBuff, DurationalBuff};
use vstd::prelude::*;

verus! {

/// All the durability buffs together.
#[derive(Clone, Copy, Hash, Debug, Eq, PartialEq, Default, Structural)]
pub struct DurabilityBuffs {
    pub manipulation: Manipulation,
    pub waste_not: WasteNot,
}

impl DurabilityBuffs {
    /// An active Waste Not has at least one turn left.
    pub open spec fn wf(&self) -> bool {
        self.waste_not.spec_wf()
    }

    pub open spec fn spec_new() -> Self {
        DurabilityBuffs { manipulation: Manipulation(0), waste_not: WasteNot::Inactive }
    }

    /// No durability buff active.
    pub fn new() -> (r: Self)
        ensures
            r == Self::spec_new(),
            r.wf(),
    {
        DurabilityBuffs { manipulation: Manipulation(0), waste_not: WasteNot::Inactive }
    }

    pub open spec fn spec_decayed(self) -> Self {
        DurabilityBuffs {
            manipulation: self.manipulation.spec_decayed(),
            waste_not: self.waste_not.spec_decayed(),
        }
    }

    /// Causes all durational durability buffs to tick down by one.
    pub fn decay(&mut self)
        requires
            old(self).wf(),
        ensures
            *final(self) == old(self).spec_decayed(),
            final(self).wf(),
    {
        proof {
            self.waste_not.lemma_decayed();
        }
        self.manipulation.decay_in_place();
        self.waste_not.decay_in_place();
    }

    pub open spec fn spec_repair(self) -> i8 {
        self.manipulation.spec_repair()
    }

    /// The durability restored at the end of a turn: 5 under Manipulation, 0 otherwise.
    pub fn repair(&self) -> (r: i8)
        ensures
            r == self.spec_repair(),
    {
        self.manipulation.repair()
    }

    pub open spec fn spec_durability_cost_mod(self) -> u16 {
        self.waste_not.spec_durability_cost_mod()
    }

    /// The percentage of the durability cost that actions pay: 50 under Waste Not,
    /// 100 otherwise.
    pub fn durability_cost_mod(&self) -> (r: u16)
        ensures
            r == self.spec_durability_cost_mod(),
    {
        self.waste_not.durability_cost_mod()
    }
}

/// The buff of the action Manipulation: for 8 turns, 5 durability is restored after
/// each action.
#[derive(Clone, Copy, Debug, Hash, PartialEq, Eq, Default, Structural)]
pub struct Manipulation(pub u8);

/// The durability Manipulation restores each turn.
pub const MANIPULATION_REPAIR_VALUE: i8 = 5;

impl Manipulation {
    pub open spec fn spec_repair(self) -> i8 {
        if self.0 > 0 { MANIPULATION_REPAIR_VALUE } else { 0 }
    }

    /// The durability restored: 5 if active, 0 otherwise.
    pub fn repair(self) -> (r: i8)
        ensures
            r == self.spec_repair(),
    {
        if self.0 > 0 {
            MANIPULATION_REPAIR_VALUE
        } else {
            0
        }
    }
}

/// The buff of the actions Waste Not and Waste Not II: actions use half the durability.
/// The two overwrite each other, so Waste Not II is Waste Not with 4 more turns; each
/// active variant holds its remaining turns.
#[derive(Clone, Copy, Debug, Hash, PartialEq, Eq, Default, Structural)]
pub enum WasteNot {
    #[default]
    Inactive,
    WasteNot(u8),
    WasteNot2(u8),
}

/// The percentage of the durability cost paid under Waste Not.
pub const WASTE_NOT_DISCOUNT: u16 = 50;

impl WasteNot {
    pub open spec fn spec_durability_cost_mod(self) -> u16 {
        match self {
            WasteNot::Inactive => 100,
            _ => WASTE_NOT_DISCOUNT,
        }
    }

    /// 50 if active, 100 otherwise.
    pub fn durability_cost_mod(self) -> (r: u16)
        ensures
            r == self.spec_durability_cost_mod(),
    {
        match self {
            WasteNot::WasteNot(_) | WasteNot::WasteNot2(_) => WASTE_NOT_DISCOUNT,
            WasteNot::Inactive => 100,
        }
    }
}

impl Buff for WasteNot {
    open spec fn spec_active(&self) -> bool {
        !(*self is Inactive)
    }

    fn is_active(&self) -> (r: bool) {
        matches!(self, WasteNot::WasteNot(_) | WasteNot::WasteNot2(_))
    }
}

impl DurationalBuff for WasteNot {
    open spec fn spec_turns(&self) -> nat {
        match *self {
            WasteNot::Inactive => 0,
            WasteNot::WasteNot(n) => n as nat,
            WasteNot::WasteNot2(n) => n as nat,
        }
    }

    open spec fn spec_base_duration() -> u8 {
        4
    }

    open spec fn spec_activation_turns(bonus: u8) -> nat {
        (4 + bonus) as nat
    }

    /// No bonus, Primed (+2), Waste Not II (+4), or both.
    open spec fn spec_bonus_allowed(bonus: u8) -> bool {
        bonus == 0 || bonus == 2 || bonus == 4 || bonus == 6
    }

    open spec fn spec_activated(self, bonus: u8) -> Self {
        if bonus == 0 || bonus == 2 {
            WasteNot::WasteNot((4 + bonus) as u8)
        } else {
            WasteNot::WasteNot2((4 + bonus) as u8)
        }
    }

    open spec fn spec_decayed(self) -> Self {
        match self {
            WasteNot::Inactive => WasteNot::Inactive,
            WasteNot::WasteNot(n) => if n <= 1 {
                WasteNot::Inactive
            } else {
                WasteNot::WasteNot((n - 1) as u8)
            },
            WasteNot::WasteNot2(n) => if n <= 1 {
                WasteNot::Inactive
            } else {
                WasteNot::WasteNot2((n - 1) as u8)
            },
        }
    }

    open spec fn spec_wf(&self) -> bool {
        match *self {
            WasteNot::Inactive => true,
            WasteNot::WasteNot(n) => n >= 1,
            WasteNot::WasteNot2(n) => n >= 1,
        }
    }

    proof fn lemma_turns_active(self) {
    }

    proof fn lemma_activated(self, bonus: u8) {
    }

    proof fn lemma_decayed(self) {
    }

    fn base_duration() -> (r: u8) {
        4
    }

    fn activate(self, bonus: u8) -> (r: Self) {
        if bonus == 0 || bonus == 2 {
            WasteNot::WasteNot(4 + bonus)
        } else {
            WasteNot::WasteNot2(4 + bonus)
        }
    }

    fn decay(self) -> (r: Self) {
        match self {
            WasteNot::Inactive => WasteNot::Inactive,
            WasteNot::WasteNot(n) => if n <= 1 {
                WasteNot::Inactive
            } else {
                WasteNot::WasteNot(n - 1)
            },
            WasteNot::WasteNot2(n) => if n <= 1 {
                WasteNot::Inactive
            } else {
                WasteNot::WasteNot2(n - 1)
            },
        }
    }
}

impl Buff for Manipulation {
    open spec fn spec_active(&self) -> bool {
        self.0 > 0
    }

    fn is_active(&self) -> (r: bool) {
        self.0 > 0
    }
}

impl DurationalBuff for Manipulation {
    open spec fn spec_turns(&self) -> nat {
        self.0 as nat
    }

    open spec fn spec_base_duration() -> u8 {
        8
    }

    open spec fn spec_activation_turns(bonus: u8) -> nat {
        (8 + bonus) as nat
    }

    open spec fn spec_bonus_allowed(bonus: u8) -> bool {
        8 + bonus <= 255
    }

    open spec fn spec_activated(self, bonus: u8) -> Self {
        Manipulation((8 + bonus) as u8)
    }

    open spec fn spec_decayed(self) -> Self {
        if self.0 == 0 {
            Manipulation(0)
        } else {
            Manipulation((self.0 - 1) as u8)
        }
    }

    open spec fn spec_wf(&self) -> bool {
        true
    }

    proof fn lemma_turns_active(self) {
    }

    proof fn lemma_activated(self, bonus: u8) {
    }

    proof fn lemma_decayed(self) {
    }

    fn base_duration() -> (r: u8) {
        8
    }

    fn activate(self, bonus: u8) -> (r: Self) {
        Manipulation(8 + bonus)
    }

    fn decay(self) -> (r: Self) {
        if self.0 == 0 {
            Manipulation(0)
        } else {
            Manipulation(self.0 - 1)
        }
    }
}

impl ConsumableBuff for Manipulation {
    open spec fn spec_remaining(&self) -> u8 {
        self.0
    }

    open spec fn spec_deactivated(self) -> Self {
        Manipulation(0)
    }

    fn deactivate(self) -> (r: (Self, u8)) {
        (Manipulation(0), self.0)
    }
}


} // verus!
