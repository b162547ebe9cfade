//! Buffs that modify the effects of actions on progress, such as Veneration.
use super::{Buff, BuffState, ConsumableBuff, DurationalBuff};
use crate::conditions::Condition;
use crate::quality_map::QualityMap;
use crate::CraftingState;
use vstd::prelude::*;

verus! {

/// All the progress buffs together.
#[derive(Clone, Copy, Hash, Debug, Eq, PartialEq, Default, Structural)]
pub struct ProgressBuffs {
    pub veneration: Veneration,
    pub muscle_memory: MuscleMemory,
    pub final_appraisal: FinalAppraisal,
}

impl ProgressBuffs {
    pub open spec fn spec_new() -> Self {
        ProgressBuffs {
            veneration: Veneration(0),
            muscle_memory: MuscleMemory(0),
            final_appraisal: FinalAppraisal(0),
        }
    }

    /// No progress buff active.
    pub fn new() -> (r: Self)
        ensures
            r == Self::spec_new(),
    {
        ProgressBuffs {
            veneration: Veneration(0),
            muscle_memory: MuscleMemory(0),
            final_appraisal: FinalAppraisal(0),
        }
    }

    pub open spec fn spec_decayed(self) -> Self {
        ProgressBuffs {
            veneration: self.veneration.spec_decayed(),
            muscle_memory: self.muscle_memory.spec_decayed(),
            final_appraisal: self.final_appraisal.spec_decayed(),
        }
    }

    /// Causes all durational progress buffs to tick down by one.
    pub fn decay(&mut self)
        ensures
            *final(self) == old(self).spec_decayed(),
    {
        self.veneration.decay_in_place();
        self.muscle_memory.decay_in_place();
        self.final_appraisal.decay_in_place();
    }

    pub open spec fn spec_efficiency_mod(self) -> u16 {
        self.veneration.spec_efficiency_mod()
    }

    /// The efficiency bonus, in percent, that these buffs grant: 50 under Veneration,
    /// 0 otherwise.
    pub fn efficiency_mod(&self) -> (r: u16)
        ensures
            r == self.spec_efficiency_mod(),
    {
        self.veneration.efficiency_mod()
    }

    pub open spec fn spec_bonus_efficiency(self) -> u16 {
        self.muscle_memory.spec_bonus_efficiency()
    }

    /// The efficiency added on to the next progress action: 100 under Muscle Memory,
    /// 0 otherwise.
    pub fn bonus_efficiency(&self) -> (r: u16)
        ensures
            r == self.spec_bonus_efficiency(),
    {
        self.muscle_memory.bonus_efficiency()
    }
}

/// A buff that raises the efficiency of progress actions by a fixed percentage while
/// it is active.
pub trait ProgressEfficiencyMod: DurationalBuff {
    /// The bonus in percent (50 means the efficiency is multiplied by 1.5).
    spec fn spec_modifier() -> u16;

    fn modifier() -> (r: u16)
        ensures
            r == Self::spec_modifier(),
    ;

    /// The modifier if the buff is active, otherwise 0.
    fn efficiency_mod(&self) -> (r: u16)
        ensures
            r == (if self.spec_active() { Self::spec_modifier() } else { 0 }),
    {
        if self.is_active() {
            Self::modifier()
        } else {
            0
        }
    }
}

/// The buff of the action Veneration: progress actions are half again as efficient
/// for 4 turns.
#[derive(Clone, Copy, Debug, Hash, PartialEq, Eq, Default, Structural)]
pub struct Veneration(pub u8);

impl Veneration {
    pub open spec fn spec_efficiency_mod(self) -> u16 {
        if self.0 > 0 { 50 } else { 0 }
    }
}

impl ProgressEfficiencyMod for Veneration {
    open spec fn spec_modifier() -> u16 {
        50
    }

    fn modifier() -> (r: u16) {
        50
    }
}

/// The buff of the action Muscle Memory: the next progress action within 5 turns gets
/// 100 more efficiency, and consumes the buff.
#[derive(Clone, Copy, Debug, Hash, PartialEq, Eq, Default, Structural)]
pub struct MuscleMemory(pub u8);

/// The efficiency that Muscle Memory adds to the next progress action.
pub const MUSCLE_MEMORY_BONUS: u16 = 100;

impl MuscleMemory {
    pub open spec fn spec_bonus_efficiency(self) -> u16 {
        if self.0 > 0 { MUSCLE_MEMORY_BONUS } else { 0 }
    }

    /// The bonus efficiency for the next synthesis action: 100 if active, 0 otherwise.
    pub fn bonus_efficiency(&self) -> (r: u16)
        ensures
            r == self.spec_bonus_efficiency(),
    {
        if self.is_active() {
            MUSCLE_MEMORY_BONUS
        } else {
            0
        }
    }
}

/// The buff of the action Final Appraisal: for 5 turns, a progress action that would
/// finish the craft leaves it one point short instead, consuming the buff.
#[derive(Clone, Copy, Debug, Hash, PartialEq, Eq, Default, Structural)]
pub struct FinalAppraisal(pub u8);

impl FinalAppraisal {
    /// Whether the buff cuts a gain of `new_progress` at `curr` progress of `max`.
    pub open spec fn spec_triggers(self, curr: u32, max: u32, new_progress: u32) -> bool {
        self.0 > 0 && curr + new_progress >= max
    }

    /// The progress actually gained: one short of finishing if the buff triggers,
    /// otherwise all of it.
    pub open spec fn spec_appraised(self, curr: u32, max: u32, new_progress: u32) -> int {
        if self.spec_triggers(curr, max, new_progress) {
            max - 1 - curr
        } else {
            new_progress as int
        }
    }

    /// Compares the progress computed for an action to the progress needed to finish
    /// the craft. If the buff is active and the craft would finish, the buff is consumed
    /// in `buffs` and the gain that leaves the craft one point short is returned;
    /// otherwise `new_progress` is returned and `buffs` is unchanged.
    pub fn handle_progress<C: Condition, M: QualityMap>(
        &self,
        state: &CraftingState<C, M>,
        new_progress: u32,
        buffs: &mut BuffState,
    ) -> (r: u32)
        requires
            self.spec_active() ==> state.curr_progress < state.problem_def.recipe.max_progress,
        ensures
            r == self.spec_appraised(
                state.curr_progress,
                state.problem_def.recipe.max_progress,
                new_progress,
            ),
            r <= new_progress,
            self.spec_triggers(
                state.curr_progress,
                state.problem_def.recipe.max_progress,
                new_progress,
            ) ==> *final(buffs) == (BuffState {
                progress: ProgressBuffs {
                    final_appraisal: FinalAppraisal(0),
                    ..old(buffs).progress
                },
                ..*old(buffs)
            }),
            !self.spec_triggers(
                state.curr_progress,
                state.problem_def.recipe.max_progress,
                new_progress,
            ) ==> *final(buffs) == *old(buffs),
    {
        if self.is_active() && state.curr_progress as u64 + new_progress as u64
            >= state.problem_def.recipe.max_progress as u64 {
            buffs.progress.final_appraisal = FinalAppraisal(0);
            (state.problem_def.recipe.max_progress - 1) - state.curr_progress
        } else {
            new_progress
        }
    }
}

impl Buff for Veneration {
    open spec fn spec_active(&self) -> bool {
        self.0 > 0
    }

    fn is_active(&self) -> (r: bool) {
        self.0 > 0
    }
}

impl DurationalBuff for Veneration {
    open spec fn spec_turns(&self) -> nat {
        self.0 as nat
    }

    open spec fn spec_base_duration() -> u8 {
        4
    }

    open spec fn spec_activation_turns(bonus: u8) -> nat {
        (4 + bonus) as nat
    }

    open spec fn spec_bonus_allowed(bonus: u8) -> bool {
        4 + bonus <= 255
    }

    open spec fn spec_activated(self, bonus: u8) -> Self {
        Veneration((4 + bonus) as u8)
    }

    open spec fn spec_decayed(self) -> Self {
        if self.0 == 0 {
            Veneration(0)
        } else {
            Veneration((self.0 - 1) as u8)
        }
    }

    open spec fn spec_wf(&self) -> bool {
        true
    }

    proof fn lemma_turns_active(self) {
    }

    proof fn lemma_activated(self, bonus: u8) {
    }

    proof fn lemma_decayed(self) {
    }

    fn base_duration() -> (r: u8) {
        4
    }

    fn activate(self, bonus: u8) -> (r: Self) {
        Veneration(4 + bonus)
    }

    fn decay(self) -> (r: Self) {
        if self.0 == 0 {
            Veneration(0)
        } else {
            Veneration(self.0 - 1)
        }
    }
}


impl Buff for MuscleMemory {
    open spec fn spec_active(&self) -> bool {
        self.0 > 0
    }

    fn is_active(&self) -> (r: bool) {
        self.0 > 0
    }
}

impl DurationalBuff for MuscleMemory {
    open spec fn spec_turns(&self) -> nat {
        self.0 as nat
    }

    open spec fn spec_base_duration() -> u8 {
        5
    }

    open spec fn spec_activation_turns(bonus: u8) -> nat {
        (5 + bonus) as nat
    }

    open spec fn spec_bonus_allowed(bonus: u8) -> bool {
        5 + bonus <= 255
    }

    open spec fn spec_activated(self, bonus: u8) -> Self {
        MuscleMemory((5 + bonus) as u8)
    }

    open spec fn spec_decayed(self) -> Self {
        if self.0 == 0 {
            MuscleMemory(0)
        } else {
            MuscleMemory((self.0 - 1) as u8)
        }
    }

    open spec fn spec_wf(&self) -> bool {
        true
    }

    proof fn lemma_turns_active(self) {
    }

    proof fn lemma_activated(self, bonus: u8) {
    }

    proof fn lemma_decayed(self) {
    }

    fn base_duration() -> (r: u8) {
        5
    }

    fn activate(self, bonus: u8) -> (r: Self) {
        MuscleMemory(5 + bonus)
    }

    fn decay(self) -> (r: Self) {
        if self.0 == 0 {
            MuscleMemory(0)
        } else {
            MuscleMemory(self.0 - 1)
        }
    }
}

impl ConsumableBuff for MuscleMemory {
    open spec fn spec_remaining(&self) -> u8 {
        self.0
    }

    open spec fn spec_deactivated(self) -> Self {
        MuscleMemory(0)
    }

    fn deactivate(self) -> (r: (Self, u8)) {
        (MuscleMemory(0), self.0)
    }
}


impl Buff for FinalAppraisal {
    open spec fn spec_active(&self) -> bool {
        self.0 > 0
    }

    fn is_active(&self) -> (r: bool) {
        self.0 > 0
    }
}

impl DurationalBuff for FinalAppraisal {
    open spec fn spec_turns(&self) -> nat {
        self.0 as nat
    }

    open spec fn spec_base_duration() -> u8 {
        5
    }

    open spec fn spec_activation_turns(bonus: u8) -> nat {
        (5 + bonus) as nat
    }

    open spec fn spec_bonus_allowed(bonus: u8) -> bool {
        5 + bonus <= 255
    }

    open spec fn spec_activated(self, bonus: u8) -> Self {
        FinalAppraisal((5 + bonus) as u8)
    }

    open spec fn spec_decayed(self) -> Self {
        if self.0 == 0 {
            FinalAppraisal(0)
        } else {
            FinalAppraisal((self.0 - 1) as u8)
        }
    }

    open spec fn spec_wf(&self) -> bool {
        true
    }

    proof fn lemma_turns_active(self) {
    }

    proof fn lemma_activated(self, bonus: u8) {
    }

    proof fn lemma_decayed(self) {
    }

    fn base_duration() -> (r: u8) {
        5
    }

    fn activate(self, bonus: u8) -> (r: Self) {
        FinalAppraisal(5 + bonus)
    }

    fn decay(self) -> (r: Self) {
        if self.0 == 0 {
            FinalAppraisal(0)
        } else {
            FinalAppraisal(self.0 - 1)
        }
    }
}

impl ConsumableBuff for FinalAppraisal {
    open spec fn spec_remaining(&self) -> u8 {
        self.0
    }

    open spec fn spec_deactivated(self) -> Self {
        FinalAppraisal(0)
    }

    fn deactivate(self) -> (r: (Self, u8)) {
        (FinalAppraisal(0), self.0)
    }
}


} // verus!
