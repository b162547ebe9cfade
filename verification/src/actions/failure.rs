//! The failed attempt at an action.
use super::collection::FfxivCraftingActions;
use super::traits::{
    Action, ActionComponents, ActionLevel, BuffAction, CanExecute, CpCost, DurabilityFactor,
    ProgressAction, QualityAction, TimePassing,
};
use vstd::prelude::*;

verus! {

/// A failed attempt at the action `A`: it costs the CP and durability of `A` and can be
/// used where `A` can, but makes no progress or quality and changes no buff; the turn
/// passes.
#[derive(Clone, Copy, PartialEq, Eq, Hash, Debug)]
pub struct NullFailure<A: Action>(pub A);

impl<A: Action> ActionComponents for NullFailure<A> {
    open spec fn spec_kind() -> FfxivCraftingActions {
        A::spec_kind()
    }

    open spec fn spec_failed() -> bool {
        true
    }

    fn kind(&self) -> (r: FfxivCraftingActions) {
        self.0.kind()
    }

    fn failed(&self) -> (r: bool) {
        true
    }
}

impl<A: Action> BuffAction for NullFailure<A> {}

impl<A: Action> CanExecute for NullFailure<A> {}

impl<A: Action> TimePassing for NullFailure<A> {}

impl<A: Action> ActionLevel for NullFailure<A> {}

impl<A: Action> CpCost for NullFailure<A> {}

impl<A: Action> DurabilityFactor for NullFailure<A> {}

impl<A: Action> ProgressAction for NullFailure<A> {}

impl<A: Action> QualityAction for NullFailure<A> {}

impl<A: Action> Action for NullFailure<A> {}

} // verus!
