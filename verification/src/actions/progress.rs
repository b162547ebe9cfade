//! Actions whose purpose is to raise progress.
use super::collection::FfxivCraftingActions;
use super::traits::{
    Action, ActionComponents, ActionLevel, BuffAction, CanExecute, CpCost, DurabilityFactor,
    ProgressAction, QualityAction, RandomAction, TimePassing,
};
use vstd::prelude::*;

verus! {

/// The simplest progress action.
#[derive(Clone, Copy, PartialEq, Eq, Hash, Debug, Default, Structural)]
pub struct BasicSynthesis;

impl ActionComponents for BasicSynthesis {
    open spec fn spec_kind() -> FfxivCraftingActions {
        FfxivCraftingActions::BasicSynthesis
    }

    open spec fn spec_failed() -> bool {
        false
    }

    fn kind(&self) -> (r: FfxivCraftingActions) {
        FfxivCraftingActions::BasicSynthesis
    }

    fn failed(&self) -> (r: bool) {
        false
    }
}

impl BuffAction for BasicSynthesis {}

impl CanExecute for BasicSynthesis {}

impl TimePassing for BasicSynthesis {}

impl ActionLevel for BasicSynthesis {}

impl CpCost for BasicSynthesis {}

impl DurabilityFactor for BasicSynthesis {}

impl ProgressAction for BasicSynthesis {}

impl QualityAction for BasicSynthesis {}

impl Action for BasicSynthesis {}

impl RandomAction for BasicSynthesis {}

/// A large progress gain that fails half the time.
#[derive(Clone, Copy, PartialEq, Eq, Hash, Debug, Default, Structural)]
pub struct RapidSynthesis;

impl ActionComponents for RapidSynthesis {
    open spec fn spec_kind() -> FfxivCraftingActions {
        FfxivCraftingActions::RapidSynthesis
    }

    open spec fn spec_failed() -> bool {
        false
    }

    fn kind(&self) -> (r: FfxivCraftingActions) {
        FfxivCraftingActions::RapidSynthesis
    }

    fn failed(&self) -> (r: bool) {
        false
    }
}

impl BuffAction for RapidSynthesis {}

impl CanExecute for RapidSynthesis {}

impl TimePassing for RapidSynthesis {}

impl ActionLevel for RapidSynthesis {}

impl CpCost for RapidSynthesis {}

impl DurabilityFactor for RapidSynthesis {}

impl ProgressAction for RapidSynthesis {}

impl QualityAction for RapidSynthesis {}

impl Action for RapidSynthesis {}

impl RandomAction for RapidSynthesis {}

/// A large progress gain on the first step, and 100 more efficiency for the next progress action.
#[derive(Clone, Copy, PartialEq, Eq, Hash, Debug, Default, Structural)]
pub struct MuscleMemory;

impl ActionComponents for MuscleMemory {
    open spec fn spec_kind() -> FfxivCraftingActions {
        FfxivCraftingActions::MuscleMemory
    }

    open spec fn spec_failed() -> bool {
        false
    }

    fn kind(&self) -> (r: FfxivCraftingActions) {
        FfxivCraftingActions::MuscleMemory
    }

    fn failed(&self) -> (r: bool) {
        false
    }
}

impl BuffAction for MuscleMemory {}

impl CanExecute for MuscleMemory {}

impl TimePassing for MuscleMemory {}

impl ActionLevel for MuscleMemory {}

impl CpCost for MuscleMemory {}

impl DurabilityFactor for MuscleMemory {}

impl ProgressAction for MuscleMemory {}

impl QualityAction for MuscleMemory {}

impl Action for MuscleMemory {}

impl RandomAction for MuscleMemory {}

/// A progress action with more efficiency for more CP.
#[derive(Clone, Copy, PartialEq, Eq, Hash, Debug, Default, Structural)]
pub struct CarefulSynthesis;

impl ActionComponents for CarefulSynthesis {
    open spec fn spec_kind() -> FfxivCraftingActions {
        FfxivCraftingActions::CarefulSynthesis
    }

    open spec fn spec_failed() -> bool {
        false
    }

    fn kind(&self) -> (r: FfxivCraftingActions) {
        FfxivCraftingActions::CarefulSynthesis
    }

    fn failed(&self) -> (r: bool) {
        false
    }
}

impl BuffAction for CarefulSynthesis {}

impl CanExecute for CarefulSynthesis {}

impl TimePassing for CarefulSynthesis {}

impl ActionLevel for CarefulSynthesis {}

impl CpCost for CarefulSynthesis {}

impl DurabilityFactor for CarefulSynthesis {}

impl ProgressAction for CarefulSynthesis {}

impl QualityAction for CarefulSynthesis {}

impl Action for CarefulSynthesis {}

impl RandomAction for CarefulSynthesis {}

/// A progress action that fails half the time unless it follows Observe.
#[derive(Clone, Copy, PartialEq, Eq, Hash, Debug, Default, Structural)]
pub struct FocusedSynthesis;

impl ActionComponents for FocusedSynthesis {
    open spec fn spec_kind() -> FfxivCraftingActions {
        FfxivCraftingActions::FocusedSynthesis
    }

    open spec fn spec_failed() -> bool {
        false
    }

    fn kind(&self) -> (r: FfxivCraftingActions) {
        FfxivCraftingActions::FocusedSynthesis
    }

    fn failed(&self) -> (r: bool) {
        false
    }
}

impl BuffAction for FocusedSynthesis {}

impl CanExecute for FocusedSynthesis {}

impl TimePassing for FocusedSynthesis {}

impl ActionLevel for FocusedSynthesis {}

impl CpCost for FocusedSynthesis {}

impl DurabilityFactor for FocusedSynthesis {}

impl ProgressAction for FocusedSynthesis {}

impl QualityAction for FocusedSynthesis {}

impl Action for FocusedSynthesis {}

impl RandomAction for FocusedSynthesis {}

/// A large progress gain for double durability; half as efficient when durability runs short.
#[derive(Clone, Copy, PartialEq, Eq, Hash, Debug, Default, Structural)]
pub struct Groundwork;

impl ActionComponents for Groundwork {
    open spec fn spec_kind() -> FfxivCraftingActions {
        FfxivCraftingActions::Groundwork
    }

    open spec fn spec_failed() -> bool {
        false
    }

    fn kind(&self) -> (r: FfxivCraftingActions) {
        FfxivCraftingActions::Groundwork
    }

    fn failed(&self) -> (r: bool) {
        false
    }
}

impl BuffAction for Groundwork {}

impl CanExecute for Groundwork {}

impl TimePassing for Groundwork {}

impl ActionLevel for Groundwork {}

impl CpCost for Groundwork {}

impl DurabilityFactor for Groundwork {}

impl ProgressAction for Groundwork {}

impl QualityAction for Groundwork {}

impl Action for Groundwork {}

impl RandomAction for Groundwork {}

/// A large progress gain; needs a Good or Excellent condition (or Heart and Soul).
#[derive(Clone, Copy, PartialEq, Eq, Hash, Debug, Default, Structural)]
pub struct IntensiveSynthesis;

impl ActionComponents for IntensiveSynthesis {
    open spec fn spec_kind() -> FfxivCraftingActions {
        FfxivCraftingActions::IntensiveSynthesis
    }

    open spec fn spec_failed() -> bool {
        false
    }

    fn kind(&self) -> (r: FfxivCraftingActions) {
        FfxivCraftingActions::IntensiveSynthesis
    }

    fn failed(&self) -> (r: bool) {
        false
    }
}

impl BuffAction for IntensiveSynthesis {}

impl CanExecute for IntensiveSynthesis {}

impl TimePassing for IntensiveSynthesis {}

impl ActionLevel for IntensiveSynthesis {}

impl CpCost for IntensiveSynthesis {}

impl DurabilityFactor for IntensiveSynthesis {}

impl ProgressAction for IntensiveSynthesis {}

impl QualityAction for IntensiveSynthesis {}

impl Action for IntensiveSynthesis {}

impl RandomAction for IntensiveSynthesis {}

/// A progress action for half durability; not usable under Waste Not.
#[derive(Clone, Copy, PartialEq, Eq, Hash, Debug, Default, Structural)]
pub struct PrudentSynthesis;

impl ActionComponents for PrudentSynthesis {
    open spec fn spec_kind() -> FfxivCraftingActions {
        FfxivCraftingActions::PrudentSynthesis
    }

    open spec fn spec_failed() -> bool {
        false
    }

    fn kind(&self) -> (r: FfxivCraftingActions) {
        FfxivCraftingActions::PrudentSynthesis
    }

    fn failed(&self) -> (r: bool) {
        false
    }
}

impl BuffAction for PrudentSynthesis {}

impl CanExecute for PrudentSynthesis {}

impl TimePassing for PrudentSynthesis {}

impl ActionLevel for PrudentSynthesis {}

impl CpCost for PrudentSynthesis {}

impl DurabilityFactor for PrudentSynthesis {}

impl ProgressAction for PrudentSynthesis {}

impl QualityAction for PrudentSynthesis {}

impl Action for PrudentSynthesis {}

impl RandomAction for PrudentSynthesis {}

} // verus!
