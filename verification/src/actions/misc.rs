//! Actions that fit no other category, such as Master's Mend.
use super::collection::FfxivCraftingActions;
use super::traits::{
    Action, ActionComponents, ActionLevel, BuffAction, CanExecute, CpCost, DurabilityFactor,
    ProgressAction, QualityAction, RandomAction, TimePassing,
};
use vstd::prelude::*;

verus! {

/// Restores 30 durability.
#[derive(Clone, Copy, PartialEq, Eq, Hash, Debug, Default, Structural)]
pub struct MastersMend;

impl ActionComponents for MastersMend {
    open spec fn spec_kind() -> FfxivCraftingActions {
        FfxivCraftingActions::MastersMend
    }

    open spec fn spec_failed() -> bool {
        false
    }

    fn kind(&self) -> (r: FfxivCraftingActions) {
        FfxivCraftingActions::MastersMend
    }

    fn failed(&self) -> (r: bool) {
        false
    }
}

impl BuffAction for MastersMend {}

impl CanExecute for MastersMend {}

impl TimePassing for MastersMend {}

impl ActionLevel for MastersMend {}

impl CpCost for MastersMend {}

impl DurabilityFactor for MastersMend {}

impl ProgressAction for MastersMend {}

impl QualityAction for MastersMend {}

impl Action for MastersMend {}

impl RandomAction for MastersMend {}

/// Does nothing, but makes the next focused action certain to succeed.
#[derive(Clone, Copy, PartialEq, Eq, Hash, Debug, Default, Structural)]
pub struct Observe;

impl ActionComponents for Observe {
    open spec fn spec_kind() -> FfxivCraftingActions {
        FfxivCraftingActions::Observe
    }

    open spec fn spec_failed() -> bool {
        false
    }

    fn kind(&self) -> (r: FfxivCraftingActions) {
        FfxivCraftingActions::Observe
    }

    fn failed(&self) -> (r: bool) {
        false
    }
}

impl BuffAction for Observe {}

impl CanExecute for Observe {}

impl TimePassing for Observe {}

impl ActionLevel for Observe {}

impl CpCost for Observe {}

impl DurabilityFactor for Observe {}

impl ProgressAction for Observe {}

impl QualityAction for Observe {}

impl Action for Observe {}

impl RandomAction for Observe {}

/// Restores 20 CP; needs a Good or Excellent condition (or Heart and Soul).
#[derive(Clone, Copy, PartialEq, Eq, Hash, Debug, Default, Structural)]
pub struct TricksOfTheTrade;

impl ActionComponents for TricksOfTheTrade {
    open spec fn spec_kind() -> FfxivCraftingActions {
        FfxivCraftingActions::TricksOfTheTrade
    }

    open spec fn spec_failed() -> bool {
        false
    }

    fn kind(&self) -> (r: FfxivCraftingActions) {
        FfxivCraftingActions::TricksOfTheTrade
    }

    fn failed(&self) -> (r: bool) {
        false
    }
}

impl BuffAction for TricksOfTheTrade {}

impl CanExecute for TricksOfTheTrade {}

impl TimePassing for TricksOfTheTrade {}

impl ActionLevel for TricksOfTheTrade {}

impl CpCost for TricksOfTheTrade {}

impl DurabilityFactor for TricksOfTheTrade {}

impl ProgressAction for TricksOfTheTrade {}

impl QualityAction for TricksOfTheTrade {}

impl Action for TricksOfTheTrade {}

impl RandomAction for TricksOfTheTrade {}

/// Raises both progress and quality.
#[derive(Clone, Copy, PartialEq, Eq, Hash, Debug, Default, Structural)]
pub struct DelicateSynthesis;

impl ActionComponents for DelicateSynthesis {
    open spec fn spec_kind() -> FfxivCraftingActions {
        FfxivCraftingActions::DelicateSynthesis
    }

    open spec fn spec_failed() -> bool {
        false
    }

    fn kind(&self) -> (r: FfxivCraftingActions) {
        FfxivCraftingActions::DelicateSynthesis
    }

    fn failed(&self) -> (r: bool) {
        false
    }
}

impl BuffAction for DelicateSynthesis {}

impl CanExecute for DelicateSynthesis {}

impl TimePassing for DelicateSynthesis {}

impl ActionLevel for DelicateSynthesis {}

impl CpCost for DelicateSynthesis {}

impl DurabilityFactor for DelicateSynthesis {}

impl ProgressAction for DelicateSynthesis {}

impl QualityAction for DelicateSynthesis {}

impl Action for DelicateSynthesis {}

impl RandomAction for DelicateSynthesis {}

/// A specialist action that changes the condition without passing time.
#[derive(Clone, Copy, PartialEq, Eq, Hash, Debug, Default, Structural)]
pub struct CarefulObservation;

impl ActionComponents for CarefulObservation {
    open spec fn spec_kind() -> FfxivCraftingActions {
        FfxivCraftingActions::CarefulObservation
    }

    open spec fn spec_failed() -> bool {
        false
    }

    fn kind(&self) -> (r: FfxivCraftingActions) {
        FfxivCraftingActions::CarefulObservation
    }

    fn failed(&self) -> (r: bool) {
        false
    }
}

impl BuffAction for CarefulObservation {}

impl CanExecute for CarefulObservation {}

impl TimePassing for CarefulObservation {}

impl ActionLevel for CarefulObservation {}

impl CpCost for CarefulObservation {}

impl DurabilityFactor for CarefulObservation {}

impl ProgressAction for CarefulObservation {}

impl QualityAction for CarefulObservation {}

impl Action for CarefulObservation {}

impl RandomAction for CarefulObservation {}

} // verus!
