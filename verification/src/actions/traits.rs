//! The traits through which each action type exposes its part of the rules. Every
//! action type names its [`FfxivCraftingActions`] kind, and the default methods defer
//! to the rules of that kind; a failed attempt ([`NullFailure`]) keeps the kind and
//! changes only what a failure changes.
use super::collection::FfxivCraftingActions;
use super::errors::{ActionError, ActionResult};
use super::failure::NullFailure;
use super::{ActionOutcome, RollOutcome};
use crate::buffs::BuffState;
use crate::conditions::Condition;
use crate::quality_map::QualityMap;
use crate::rolls::roll_percentile;
use crate::CraftingState;
use rand::rngs::StdRng;
use vstd::prelude::*;

verus! {

/// The identity of an action type: which action it is, and whether it stands for a
/// failed attempt.
pub trait ActionComponents: Sized + Copy {
    spec fn spec_kind() -> FfxivCraftingActions;

    spec fn spec_failed() -> bool;

    /// Which action this is.
    fn kind(&self) -> (r: FfxivCraftingActions)
        ensures
            r == Self::spec_kind(),
    ;

    /// Whether this stands for a failed attempt.
    fn failed(&self) -> (r: bool)
        ensures
            r == Self::spec_failed(),
    ;
}

/// The stage of an action in which it consumes and grants buffs.
pub trait BuffAction: ActionComponents {
    /// Grants the buffs of the action to `so_far`.
    fn buff<C: Condition, M: QualityMap>(&self, state: &CraftingState<C, M>, so_far: &mut BuffState)
        requires
            old(so_far).wf(),
        ensures
            *final(so_far) == (if Self::spec_failed() {
                *old(so_far)
            } else {
                Self::spec_kind().spec_buffed(*state, *old(so_far))
            }),
            final(so_far).wf(),
    {
        if !self.failed() {
            self.kind().buff(state, so_far);
        }
    }

    /// Consumes in `so_far` the buffs the action uses up.
    fn deactivate_buff<C: Condition, M: QualityMap>(
        &self,
        state: &CraftingState<C, M>,
        so_far: &mut BuffState,
    )
        requires
            old(so_far).wf(),
        ensures
            *final(so_far) == (if Self::spec_failed() {
                *old(so_far)
            } else {
                Self::spec_kind().spec_deactivated(*state, *old(so_far))
            }),
            final(so_far).wf(),
    {
        if !self.failed() {
            self.kind().deactivate(state, so_far);
        }
    }
}

/// Whether an action can be used in a state, CP aside.
pub trait CanExecute: ActionComponents {
    fn can_execute<C: Condition, M: QualityMap>(&self, state: &CraftingState<C, M>) -> (r: bool)
        requires
            state.buffs.wf(),
        ensures
            r == Self::spec_kind().spec_can_execute(*state),
    {
        self.kind().can_execute(state)
    }
}

/// Whether an action lets a turn pass.
pub trait TimePassing: ActionComponents {
    fn time_passed<C: Condition, M: QualityMap>(&self, state: &CraftingState<C, M>) -> (r: bool)
        ensures
            r == (Self::spec_failed() || !Self::spec_kind().spec_stops_time()),
    {
        self.failed() || !self.kind().stops_time()
    }
}

/// The class level at which an action is learned.
pub trait ActionLevel: ActionComponents {
    fn level(&self) -> (r: u16)
        ensures
            r == Self::spec_kind().spec_level(),
    {
        self.kind().level()
    }
}

/// The CP an action adds (negative for a cost).
pub trait CpCost: ActionComponents {
    fn cp_cost<C: Condition, M: QualityMap>(&self, state: &CraftingState<C, M>) -> (r: i16)
        ensures
            r == Self::spec_kind().spec_added_cp(*state),
    {
        self.kind().added_cp(state)
    }
}

/// The durability an action uses (negative) or restores (positive).
pub trait DurabilityFactor: ActionComponents {
    fn durability<C: Condition>(&self, buffs: &BuffState, condition: &C) -> (r: i8)
        ensures
            r == Self::spec_kind().spec_action_durability(*buffs, *condition),
    {
        self.kind().action_durability(buffs, condition)
    }
}

/// The progress an action makes, before Final Appraisal.
pub trait ProgressAction: ActionComponents {
    fn progress<C: Condition, M: QualityMap>(&self, state: &CraftingState<C, M>) -> (r: u32)
        requires
            state.problem_def.computable(),
        ensures
            r == (if Self::spec_failed() {
                0
            } else {
                Self::spec_kind().spec_progress(*state)
            }),
    {
        if self.failed() {
            0
        } else {
            self.kind().progress(state)
        }
    }
}

/// The quality an action adds.
pub trait QualityAction: ActionComponents {
    fn quality<C: Condition, M: QualityMap>(&self, state: &CraftingState<C, M>) -> (r: u32)
        requires
            state.problem_def.computable(),
            state.buffs.wf(),
        ensures
            r == (if Self::spec_failed() {
                0
            } else {
                Self::spec_kind().spec_quality(*state)
            }),
    {
        if self.failed() {
            0
        } else {
            self.kind().quality(state)
        }
    }
}

/// A crafting action.
pub trait Action: BuffAction + CanExecute + TimePassing + CpCost + DurabilityFactor +
    ProgressAction + QualityAction {
    /// Works out what the action would do in `state` without requiring that it can be
    /// done: `Ok` with the outcome if it has the CP and can be used, otherwise the
    /// error that says which check failed, carrying the outcome it would have had.
    fn prospective_act<C: Condition, M: QualityMap>(self, state: &CraftingState<C, M>) -> (r:
        ActionResult)
        requires
            state.actionable(),
        ensures
            r == ActionError::spec_from_checks(
                Self::spec_kind().spec_cp_ok(*state),
                Self::spec_kind().spec_can_execute(*state),
                Self::spec_kind().spec_outcome(Self::spec_failed(), *state),
            ),
    {
        let delta = self.kind().delta(self.failed(), state);
        let outcome = ActionOutcome::from_delta_state(delta, state);
        let cp_ok = state.curr_cp as i32 + delta.added_cp as i32 >= 0;
        ActionError::from_checks(cp_ok, self.can_execute(state), outcome)
    }

    /// Executes the action in a state where it has the CP it needs and can be used.
    fn act<C: Condition, M: QualityMap>(self, state: &CraftingState<C, M>) -> (r: ActionOutcome)
        requires
            state.actionable(),
            Self::spec_kind().spec_cp_ok(*state),
            Self::spec_kind().spec_can_execute(*state),
        ensures
            r == Self::spec_kind().spec_outcome(Self::spec_failed(), *state),
    {
        ActionOutcome::from_delta_state(self.kind().delta(self.failed(), state), state)
    }
}

/// An action that may fail; a failure is a [`NullFailure`] of the action.
pub trait RandomAction: Action {
    /// The percentage chance that the action fails in `state`.
    fn fail_rate<C: Condition, M: QualityMap>(&self, state: &CraftingState<C, M>) -> (r: u8)
        ensures
            r == Self::spec_kind().spec_fail_rate(*state),
            r <= 50,
    {
        self.kind().fail_rate(state)
    }

    /// The failed attempt at this action.
    fn fail_action(&self) -> (r: NullFailure<Self>)
        ensures
            r.0 == *self,
    {
        NullFailure(*self)
    }

    /// What the action becomes for the percentile roll `roll`: a failure exactly when the
    /// roll is below the fail rate (so the action fails on `fail_rate` of the 100 rolls).
    fn outcome_for_roll<C: Condition, M: QualityMap>(self, state: &CraftingState<C, M>, roll: u8) -> (r:
        RollOutcome<Self, NullFailure<Self>>)
        requires
            roll < 100,
        ensures
            r == (if Self::spec_kind().spec_roll_fails(*state, roll as int) {
                RollOutcome::<Self, NullFailure<Self>>::Failure(NullFailure(self))
            } else {
                RollOutcome::<Self, NullFailure<Self>>::Success(self)
            }),
    {
        if roll < self.fail_rate(state) {
            RollOutcome::Failure(self.fail_action())
        } else {
            RollOutcome::Success(self)
        }
    }

    /// Decides with a percentile roll from `rng` whether the action succeeds: an action
    /// that cannot fail succeeds without drawing from `rng`; otherwise one roll is drawn
    /// and [`RandomAction::outcome_for_roll`] decides.
    fn roll<C: Condition, M: QualityMap>(
        self,
        rng: &mut StdRng,
        state: &CraftingState<C, M>,
    ) -> (r: RollOutcome<Self, NullFailure<Self>>)
        ensures
            exists|p: int|
                0 <= p < 100 && r == (if Self::spec_kind().spec_roll_fails(*state, p) {
                    RollOutcome::<Self, NullFailure<Self>>::Failure(NullFailure(self))
                } else {
                    RollOutcome::<Self, NullFailure<Self>>::Success(self)
                }),
            Self::spec_kind().spec_fail_rate(*state) == 0 ==> r == RollOutcome::<
                Self,
                NullFailure<Self>,
            >::Success(self) && *final(rng) == *old(rng),
    {
        let rate = self.fail_rate(state);
        if rate == 0 {
            assert(!Self::spec_kind().spec_roll_fails(*state, 0));
            return RollOutcome::Success(self);
        }
        let roll = roll_percentile(rng);
        let r = self.outcome_for_roll(state, roll);
        assert(0 <= roll as int && (roll as int) < 100);
        r
    }

    /// Rolls for success with `rng` and executes the action or its failure: the failure
    /// exactly when the roll falls below the fail rate.
    fn act_random<C: Condition, M: QualityMap>(
        self,
        rng: &mut StdRng,
        state: &CraftingState<C, M>,
    ) -> (r: RollOutcome<ActionOutcome, ActionOutcome>)
        requires
            state.actionable(),
            Self::spec_kind().spec_cp_ok(*state),
            Self::spec_kind().spec_can_execute(*state),
        ensures
            exists|p: int|
                0 <= p < 100 && r == (if Self::spec_kind().spec_roll_fails(*state, p) {
                    RollOutcome::<ActionOutcome, ActionOutcome>::Failure(
                        Self::spec_kind().spec_outcome(true, *state),
                    )
                } else {
                    RollOutcome::<ActionOutcome, ActionOutcome>::Success(
                        Self::spec_kind().spec_outcome(Self::spec_failed(), *state),
                    )
                }),
            Self::spec_kind().spec_fail_rate(*state) == 0 ==> *final(rng) == *old(rng),
    {
        match self.roll(rng, state) {
            RollOutcome::Failure(fail) => RollOutcome::Failure(fail.act(state)),
            RollOutcome::Success(me) => RollOutcome::Success(me.act(state)),
        }
    }

    /// Rolls for success with `rng` and works out the action or its failure
    /// prospectively: the failure exactly when the roll falls below the fail rate.
    fn propective_act_random<C: Condition, M: QualityMap>(
        self,
        rng: &mut StdRng,
        state: &CraftingState<C, M>,
    ) -> (r: RollOutcome<ActionResult, ActionResult>)
        requires
            state.actionable(),
        ensures
            exists|p: int|
                0 <= p < 100 && r == (if Self::spec_kind().spec_roll_fails(*state, p) {
                    RollOutcome::<ActionResult, ActionResult>::Failure(
                        ActionError::spec_from_checks(
                            Self::spec_kind().spec_cp_ok(*state),
                            Self::spec_kind().spec_can_execute(*state),
                            Self::spec_kind().spec_outcome(true, *state),
                        ),
                    )
                } else {
                    RollOutcome::<ActionResult, ActionResult>::Success(
                        ActionError::spec_from_checks(
                            Self::spec_kind().spec_cp_ok(*state),
                            Self::spec_kind().spec_can_execute(*state),
                            Self::spec_kind().spec_outcome(Self::spec_failed(), *state),
                        ),
                    )
                }),
            Self::spec_kind().spec_fail_rate(*state) == 0 ==> *final(rng) == *old(rng),
    {
        match self.roll(rng, state) {
            RollOutcome::Failure(fail) => RollOutcome::Failure(fail.prospective_act(state)),
            RollOutcome::Success(me) => RollOutcome::Success(me.prospective_act(state)),
        }
    }

    /// Both ways the action can go, each with its chance in percent: the failure first,
    /// then the success.
    fn act_and_fail<C: Condition, M: QualityMap>(self, state: &CraftingState<C, M>) -> (r: [(
        u8,
        RollOutcome<ActionOutcome, ActionOutcome>,
    ); 2])
        requires
            state.actionable(),
            Self::spec_kind().spec_cp_ok(*state),
            Self::spec_kind().spec_can_execute(*state),
        ensures
            r@[0].0 == Self::spec_kind().spec_fail_rate(*state),
            r@[0].1 == RollOutcome::<ActionOutcome, ActionOutcome>::Failure(
                Self::spec_kind().spec_outcome(true, *state),
            ),
            r@[1].0 == 100 - Self::spec_kind().spec_fail_rate(*state),
            r@[1].1 == RollOutcome::<ActionOutcome, ActionOutcome>::Success(
                Self::spec_kind().spec_outcome(Self::spec_failed(), *state),
            ),
    {
        let rate = self.fail_rate(state);
        [
            (rate, RollOutcome::Failure(self.fail_action().act(state))),
            (100 - rate, RollOutcome::Success(self.act(state))),
        ]
    }

    /// Both ways the action can go, worked out prospectively.
    fn prospective_act_and_fail<C: Condition, M: QualityMap>(
        self,
        state: &CraftingState<C, M>,
    ) -> (r: [(u8, RollOutcome<ActionResult, ActionResult>); 2])
        requires
            state.actionable(),
        ensures
            r@[0].0 == Self::spec_kind().spec_fail_rate(*state),
            r@[0].1 == RollOutcome::<ActionResult, ActionResult>::Failure(
                ActionError::spec_from_checks(
                    Self::spec_kind().spec_cp_ok(*state),
                    Self::spec_kind().spec_can_execute(*state),
                    Self::spec_kind().spec_outcome(true, *state),
                ),
            ),
            r@[1].0 == 100 - Self::spec_kind().spec_fail_rate(*state),
            r@[1].1 == RollOutcome::<ActionResult, ActionResult>::Success(
                ActionError::spec_from_checks(
                    Self::spec_kind().spec_cp_ok(*state),
                    Self::spec_kind().spec_can_execute(*state),
                    Self::spec_kind().spec_outcome(Self::spec_failed(), *state),
                ),
            ),
    {
        let rate = self.fail_rate(state);
        [
            (rate, RollOutcome::Failure(self.fail_action().prospective_act(state))),
            (100 - rate, RollOutcome::Success(self.prospective_act(state))),
        ]
    }
}

} // verus!
