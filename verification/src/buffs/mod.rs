//! The buffs a crafter can have active, and the traits that describe how they are
//! activated, tick down and are consumed.
use vstd::prelude::*;

pub mod combo;
pub mod durability;
pub mod misc;
pub mod progress;
pub mod quality;

use self::combo::ComboTriggers;
use self::durability::DurabilityBuffs;
use self::misc::{HeartAndSoul, SpecialistActions};
use self::progress::ProgressBuffs;
use self::quality::QualityBuffs;

verus! {

/// `n - 1`, stopping at zero.
pub open spec fn decremented(n: nat) -> nat {
    if n == 0 {
        0
    } else {
        (n - 1) as nat
    }
}

/// The basic form of a crafting buff: something that is either active or inactive.
pub trait Buff: Sized + Copy {
    spec fn spec_active(&self) -> bool;

    /// Checks whether the buff is active.
    fn is_active(&self) -> (r: bool)
        ensures
            r == self.spec_active(),
    ;

    /// Checks whether the buff is inactive.
    fn is_inactive(&self) -> (r: bool)
        ensures
            r == !self.spec_active(),
    {
        !self.is_active()
    }
}

/// A [`Buff`] that stays active for a number of turns after activation. Activation sets
/// the remaining turns to the base duration plus a bonus (for example from the Primed
/// condition), whether or not the buff was already active; each decay removes one turn.
pub trait DurationalBuff: Buff {
    /// The number of turns left before the buff runs out.
    spec fn spec_turns(&self) -> nat;

    spec fn spec_base_duration() -> u8;

    /// The turns an activation with `bonus` grants.
    spec fn spec_activation_turns(bonus: u8) -> nat;

    /// The bonuses that an activation accepts.
    spec fn spec_bonus_allowed(bonus: u8) -> bool;

    spec fn spec_activated(self, bonus: u8) -> Self;

    spec fn spec_decayed(self) -> Self;

    /// The internal consistency of a value of the buff.
    spec fn spec_wf(&self) -> bool;

    proof fn lemma_turns_active(self)
        requires
            self.spec_wf(),
        ensures
            self.spec_active() == (self.spec_turns() > 0),
    ;

    proof fn lemma_activated(self, bonus: u8)
        requires
            Self::spec_bonus_allowed(bonus),
        ensures
            self.spec_activated(bonus).spec_wf(),
            self.spec_activated(bonus).spec_turns() == Self::spec_activation_turns(bonus),
    ;

    proof fn lemma_decayed(self)
        requires
            self.spec_wf(),
        ensures
            self.spec_decayed().spec_wf(),
            self.spec_decayed().spec_turns() == decremented(self.spec_turns()),
    ;

    /// The number of turns the buff lasts when activated without a bonus.
    fn base_duration() -> (r: u8)
        ensures
            r == Self::spec_base_duration(),
    ;

    /// Returns the buff activated with `bonus` extra turns.
    fn activate(self, bonus: u8) -> (r: Self)
        requires
            Self::spec_bonus_allowed(bonus),
        ensures
            r == self.spec_activated(bonus),
    ;

    /// Activates the buff in place.
    fn activate_in_place(&mut self, bonus: u8)
        requires
            Self::spec_bonus_allowed(bonus),
        ensures
            *final(self) == old(self).spec_activated(bonus),
    {
        *self = self.activate(bonus);
    }

    /// Returns the buff with one turn less (an inactive buff stays inactive).
    fn decay(self) -> (r: Self)
        requires
            self.spec_wf(),
        ensures
            r == self.spec_decayed(),
    ;

    /// Decays the buff in place.
    fn decay_in_place(&mut self)
        requires
            old(self).spec_wf(),
        ensures
            *final(self) == old(self).spec_decayed(),
    {
        *self = self.decay();
    }
}

/// A buff that an action can consume all at once, handing back what remained of it.
pub trait ConsumableBuff: Buff {
    /// What consuming the buff hands back (its remaining turns or stacks).
    spec fn spec_remaining(&self) -> u8;

    spec fn spec_deactivated(self) -> Self;

    /// Returns the consumed buff and what remained of it. Only an active buff can be
    /// consumed.
    fn deactivate(self) -> (r: (Self, u8))
        requires
            self.spec_active(),
        ensures
            r.0 == self.spec_deactivated(),
            !r.0.spec_active(),
            r.1 == self.spec_remaining(),
    ;

    /// Consumes the buff in place, returning what remained of it.
    fn deactivate_in_place(&mut self) -> (r: u8)
        requires
            old(self).spec_active(),
        ensures
            *final(self) == old(self).spec_deactivated(),
            !final(self).spec_active(),
            r == old(self).spec_remaining(),
    {
        let (new, remaining) = self.deactivate();
        *self = new;
        remaining
    }
}

/// A durational buff decayed `n` times.
pub open spec fn decayed_n<B: DurationalBuff>(b: B, n: nat) -> B
    decreases n,
{
    if n == 0 {
        b
    } else {
        decayed_n(b, (n - 1) as nat).spec_decayed()
    }
}

/// A well-formed durational buff decayed `n` times has lost `n` turns, stopping at zero.
pub proof fn lemma_decayed_n<B: DurationalBuff>(b: B, n: nat)
    requires
        b.spec_wf(),
    ensures
        decayed_n(b, n).spec_wf(),
        decayed_n(b, n).spec_turns() == if b.spec_turns() >= n {
            (b.spec_turns() - n) as nat
        } else {
            0nat
        },
    decreases n,
{
    if n > 0 {
        lemma_decayed_n(b, (n - 1) as nat);
        decayed_n(b, (n - 1) as nat).lemma_decayed();
    }
}

/// The lifetime of a durational buff: once activated with a bonus it accepts, it stays
/// active through exactly as many decays as the activation granted turns, and is
/// inactive after that many.
pub proof fn law_activation_lifetime<B: DurationalBuff>(b: B, bonus: u8, k: nat)
    requires
        B::spec_bonus_allowed(bonus),
    ensures
        decayed_n(b.spec_activated(bonus), k).spec_active() == (k < B::spec_activation_turns(
            bonus,
        )),
{
    b.lemma_activated(bonus);
    lemma_decayed_n(b.spec_activated(bonus), k);
    decayed_n(b.spec_activated(bonus), k).lemma_turns_active();
}

/// Encodes the buff state during crafting.
#[derive(Clone, Copy, Hash, Debug, Eq, PartialEq, Default, Structural)]
pub struct BuffState {
    pub quality: QualityBuffs,
    pub progress: ProgressBuffs,
    pub durability: DurabilityBuffs,
    pub combo: ComboTriggers,
    pub specialist_actions: SpecialistActions,
    pub heart_and_soul: HeartAndSoul,
}

impl BuffState {
    /// The internal consistency of the buff state: Inner Quiet has at most 10 stacks,
    /// an active Waste Not has at least one turn left, and a specialist has 1 to 3
    /// delineations left when they are listed as available.
    pub open spec fn wf(&self) -> bool {
        &&& self.quality.wf()
        &&& self.durability.wf()
        &&& self.specialist_actions.wf()
    }

    /// A state with no buffs active, for a crafter who is not a specialist.
    pub fn new() -> (r: Self)
        ensures
            r == Self::spec_new(),
            r.wf(),
    {
        BuffState {
            quality: QualityBuffs::new(),
            progress: ProgressBuffs::new(),
            durability: DurabilityBuffs::new(),
            combo: ComboTriggers::new(),
            specialist_actions: SpecialistActions::NotSpecialist,
            heart_and_soul: HeartAndSoul::Inactive,
        }
    }

    pub open spec fn spec_new() -> Self {
        BuffState {
            quality: QualityBuffs::spec_new(),
            progress: ProgressBuffs::spec_new(),
            durability: DurabilityBuffs::spec_new(),
            combo: ComboTriggers::spec_new(),
            specialist_actions: SpecialistActions::NotSpecialist,
            heart_and_soul: HeartAndSoul::Inactive,
        }
    }

    /// The state after one turn passes: every buff that ticks down loses a turn.
    pub open spec fn spec_decayed(self) -> Self {
        BuffState {
            quality: self.quality.spec_decayed(),
            progress: self.progress.spec_decayed(),
            durability: self.durability.spec_decayed(),
            combo: self.combo.spec_decayed(),
            ..self
        }
    }

    /// Makes all active buffs that tick down over time decay one step.
    pub fn decay(&mut self)
        requires
            old(self).wf(),
        ensures
            *final(self) == old(self).spec_decayed(),
            final(self).wf(),
    {
        self.quality.decay();
        self.progress.decay();
        self.durability.decay();
        self.combo.decay();
    }
}

} // verus!
