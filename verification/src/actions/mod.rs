//! The rules by which actions act on a [`CraftingState`]: each action yields a
//! [`StateDelta`], the change it would make, and an [`ActionOutcome`] saying whether the
//! craft goes on, completes or fails.
use crate::buffs::BuffState;
use crate::conditions::Condition;
use crate::quality_map::QualityMap;
use crate::CraftingState;
use vstd::prelude::*;

pub mod buffs;
pub mod collection;
pub mod engine;
pub mod errors;
pub mod failure;
pub mod laws;
pub mod misc;
pub mod progress;
pub mod quality;
pub mod traits;

pub use self::collection::FfxivCraftingActions;
pub use self::errors::{ActionError, ActionResult};
pub use self::traits::{
    Action, ActionComponents, ActionLevel, BuffAction, CanExecute, CpCost, DurabilityFactor,
    ProgressAction, QualityAction, RandomAction, TimePassing,
};

verus! {

/// The change an action makes to a crafting state.
#[derive(Clone, Copy, PartialEq, Eq, Hash, Debug, Structural)]
pub struct StateDelta {
    pub added_quality: u32,
    pub added_progress: u32,
    /// The buffs after the action (they replace the old ones).
    pub new_buffs: BuffState,
    /// The durability the action itself uses (negative) or restores (positive).
    pub action_durability: i8,
    /// The durability that buffs restore after the action.
    pub buff_repair: i8,
    pub added_cp: i16,
    /// Whether a turn passes: buffs tick down and the condition changes.
    pub time_passed: bool,
    /// Whether Final Appraisal stopped the craft from finishing.
    pub final_appraisal_triggered: bool,
}

impl StateDelta {
    pub open spec fn spec_inherit_buffs(buffs: BuffState) -> Self {
        StateDelta {
            added_quality: 0,
            added_progress: 0,
            new_buffs: buffs,
            action_durability: 0,
            buff_repair: 0,
            added_cp: 0,
            time_passed: true,
            final_appraisal_triggered: false,
        }
    }

    /// A delta that changes nothing but keeps `buffs` and passes a turn.
    pub fn inherit_buffs(buffs: BuffState) -> (r: Self)
        ensures
            r == Self::spec_inherit_buffs(buffs),
    {
        StateDelta {
            added_quality: 0,
            added_progress: 0,
            new_buffs: buffs,
            action_durability: 0,
            buff_repair: 0,
            added_cp: 0,
            time_passed: true,
            final_appraisal_triggered: false,
        }
    }

    pub open spec fn spec_no_repair(self) -> Self {
        StateDelta { buff_repair: 0, ..self }
    }

    /// The same delta without the durability restored by buffs.
    pub fn no_repair(self) -> (r: Self)
        ensures
            r == self.spec_no_repair(),
    {
        StateDelta { buff_repair: 0, ..self }
    }
}

impl Default for StateDelta {
    /// No change, no buffs, and a turn passes.
    fn default() -> (r: Self)
        ensures
            r == Self::spec_inherit_buffs(BuffState::spec_new()),
    {
        Self::inherit_buffs(BuffState::new())
    }
}

/// What an action leads to.
#[derive(Clone, Copy, Debug, PartialEq, Eq, Hash, Structural)]
pub enum ActionOutcome {
    /// The craft ran out of durability.
    Failure(StateDelta),
    /// The craft reached its progress goal.
    Completed(StateDelta),
    /// The craft goes on.
    InProgress(StateDelta),
}

impl ActionOutcome {
    pub open spec fn spec_outcome(self) -> StateDelta {
        match self {
            ActionOutcome::Failure(d) => d,
            ActionOutcome::Completed(d) => d,
            ActionOutcome::InProgress(d) => d,
        }
    }

    /// The change the action makes, whatever the outcome.
    pub fn outcome(self) -> (r: StateDelta)
        ensures
            r == self.spec_outcome(),
    {
        match self {
            ActionOutcome::Failure(d) => d,
            ActionOutcome::Completed(d) => d,
            ActionOutcome::InProgress(d) => d,
        }
    }

    /// The outcome of applying `delta` to `state`: completed if progress reaches the
    /// goal, otherwise failed if the action leaves no durability, otherwise in
    /// progress. A craft that ends gets no repair from buffs.
    pub open spec fn spec_from_delta_state<C: Condition, M: QualityMap>(
        delta: StateDelta,
        state: CraftingState<C, M>,
    ) -> Self {
        if state.curr_progress + delta.added_progress >= state.problem_def.recipe.max_progress {
            ActionOutcome::Completed(delta.spec_no_repair())
        } else if state.curr_durability + delta.action_durability <= 0 {
            ActionOutcome::Failure(delta.spec_no_repair())
        } else {
            ActionOutcome::InProgress(delta)
        }
    }

    /// Classifies the result of applying `delta` to `state`.
    pub fn from_delta_state<C: Condition, M: QualityMap>(
        delta: StateDelta,
        state: &CraftingState<C, M>,
    ) -> (r: Self)
        ensures
            r == Self::spec_from_delta_state(delta, *state),
    {
        if state.curr_progress as u64 + delta.added_progress as u64
            >= state.problem_def.recipe.max_progress as u64 {
            ActionOutcome::Completed(delta.no_repair())
        } else if state.curr_durability as i16 + delta.action_durability as i16 <= 0 {
            ActionOutcome::Failure(delta.no_repair())
        } else {
            ActionOutcome::InProgress(delta)
        }
    }

    pub open spec fn spec_map_quality<C: Condition, M: QualityMap>(
        self,
        state: CraftingState<C, M>,
    ) -> Option<M::Outcome> {
        match self {
            ActionOutcome::Completed(d) => Some(
                M::spec_convert(
                    (d.added_quality + state.curr_quality) as u32,
                    state.problem_def.recipe.max_quality,
                ),
            ),
            _ => None,
        }
    }

    /// For a completed craft, the outcome of its final quality under the quality map
    /// `M`; `None` for a craft that did not complete.
    pub fn map_quality<C: Condition, M: QualityMap>(self, state: &CraftingState<C, M>) -> (r:
        Option<M::Outcome>)
        requires
            M::spec_accepts(state.problem_def.recipe.max_quality),
            self is Completed ==> state.curr_quality + self.spec_outcome().added_quality
                <= u32::MAX,
        ensures
            r == self.spec_map_quality(*state),
    {
        match self {
            ActionOutcome::Completed(d) => Some(
                M::convert(d.added_quality + state.curr_quality, state.problem_def.recipe.max_quality),
            ),
            _ => None,
        }
    }
}

/// Either a success or a failure of a random action.
#[derive(Clone, Copy, PartialEq, Eq, Hash, Debug)]
pub enum RollOutcome<A, B> {
    Success(A),
    Failure(B),
}

} // verus!
