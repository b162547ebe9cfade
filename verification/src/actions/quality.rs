//! Actions whose purpose is to raise quality.
use super::collection::FfxivCraftingActions;
use super::traits::{
    Action, ActionComponents, ActionLevel, BuffAction, CanExecute, CpCost, DurabilityFactor,
    ProgressAction, QualityAction, RandomAction, TimePassing,
};
use vstd::prelude::*;

verus! {

/// The simplest quality action; starts the touch combo.
#[derive(Clone, Copy, PartialEq, Eq, Hash, Debug, Default, Structural)]
pub struct BasicTouch;

impl ActionComponents for BasicTouch {
    open spec fn spec_kind() -> FfxivCraftingActions {
        FfxivCraftingActions::BasicTouch
    }

    open spec fn spec_failed() -> bool {
        false
    }

    fn kind(&self) -> (r: FfxivCraftingActions) {
        FfxivCraftingActions::BasicTouch
    }

    fn failed(&self) -> (r: bool) {
        false
    }
}

impl BuffAction for BasicTouch {}

impl CanExecute for BasicTouch {}

impl TimePassing for BasicTouch {}

impl ActionLevel for BasicTouch {}

impl CpCost for BasicTouch {}

impl DurabilityFactor for BasicTouch {}

impl ProgressAction for BasicTouch {}

impl QualityAction for BasicTouch {}

impl Action for BasicTouch {}

impl RandomAction for BasicTouch {}

/// A free quality action that fails 40% of the time.
#[derive(Clone, Copy, PartialEq, Eq, Hash, Debug, Default, Structural)]
pub struct HastyTouch;

impl ActionComponents for HastyTouch {
    open spec fn spec_kind() -> FfxivCraftingActions {
        FfxivCraftingActions::HastyTouch
    }

    open spec fn spec_failed() -> bool {
        false
    }

    fn kind(&self) -> (r: FfxivCraftingActions) {
        FfxivCraftingActions::HastyTouch
    }

    fn failed(&self) -> (r: bool) {
        false
    }
}

impl BuffAction for HastyTouch {}

impl CanExecute for HastyTouch {}

impl TimePassing for HastyTouch {}

impl ActionLevel for HastyTouch {}

impl CpCost for HastyTouch {}

impl DurabilityFactor for HastyTouch {}

impl ProgressAction for HastyTouch {}

impl QualityAction for HastyTouch {}

impl Action for HastyTouch {}

impl RandomAction for HastyTouch {}

/// A quality action that costs less after Basic Touch.
#[derive(Clone, Copy, PartialEq, Eq, Hash, Debug, Default, Structural)]
pub struct StandardTouch;

impl ActionComponents for StandardTouch {
    open spec fn spec_kind() -> FfxivCraftingActions {
        FfxivCraftingActions::StandardTouch
    }

    open spec fn spec_failed() -> bool {
        false
    }

    fn kind(&self) -> (r: FfxivCraftingActions) {
        FfxivCraftingActions::StandardTouch
    }

    fn failed(&self) -> (r: bool) {
        false
    }
}

impl BuffAction for StandardTouch {}

impl CanExecute for StandardTouch {}

impl TimePassing for StandardTouch {}

impl ActionLevel for StandardTouch {}

impl CpCost for StandardTouch {}

impl DurabilityFactor for StandardTouch {}

impl ProgressAction for StandardTouch {}

impl QualityAction for StandardTouch {}

impl Action for StandardTouch {}

impl RandomAction for StandardTouch {}

/// A quality action drawing on Inner Quiet's stacks, which it consumes.
#[derive(Clone, Copy, PartialEq, Eq, Hash, Debug, Default, Structural)]
pub struct ByregotsBlessing;

impl ActionComponents for ByregotsBlessing {
    open spec fn spec_kind() -> FfxivCraftingActions {
        FfxivCraftingActions::ByregotsBlessing
    }

    open spec fn spec_failed() -> bool {
        false
    }

    fn kind(&self) -> (r: FfxivCraftingActions) {
        FfxivCraftingActions::ByregotsBlessing
    }

    fn failed(&self) -> (r: bool) {
        false
    }
}

impl BuffAction for ByregotsBlessing {}

impl CanExecute for ByregotsBlessing {}

impl TimePassing for ByregotsBlessing {}

impl ActionLevel for ByregotsBlessing {}

impl CpCost for ByregotsBlessing {}

impl DurabilityFactor for ByregotsBlessing {}

impl ProgressAction for ByregotsBlessing {}

impl QualityAction for ByregotsBlessing {}

impl Action for ByregotsBlessing {}

impl RandomAction for ByregotsBlessing {}

/// A quality action granting two Inner Quiet stacks; needs a Good or Excellent condition (or Heart and Soul).
#[derive(Clone, Copy, PartialEq, Eq, Hash, Debug, Default, Structural)]
pub struct PreciseTouch;

impl ActionComponents for PreciseTouch {
    open spec fn spec_kind() -> FfxivCraftingActions {
        FfxivCraftingActions::PreciseTouch
    }

    open spec fn spec_failed() -> bool {
        false
    }

    fn kind(&self) -> (r: FfxivCraftingActions) {
        FfxivCraftingActions::PreciseTouch
    }

    fn failed(&self) -> (r: bool) {
        false
    }
}

impl BuffAction for PreciseTouch {}

impl CanExecute for PreciseTouch {}

impl TimePassing for PreciseTouch {}

impl ActionLevel for PreciseTouch {}

impl CpCost for PreciseTouch {}

impl DurabilityFactor for PreciseTouch {}

impl ProgressAction for PreciseTouch {}

impl QualityAction for PreciseTouch {}

impl Action for PreciseTouch {}

impl RandomAction for PreciseTouch {}

/// A quality action for half durability; not usable under Waste Not.
#[derive(Clone, Copy, PartialEq, Eq, Hash, Debug, Default, Structural)]
pub struct PrudentTouch;

impl ActionComponents for PrudentTouch {
    open spec fn spec_kind() -> FfxivCraftingActions {
        FfxivCraftingActions::PrudentTouch
    }

    open spec fn spec_failed() -> bool {
        false
    }

    fn kind(&self) -> (r: FfxivCraftingActions) {
        FfxivCraftingActions::PrudentTouch
    }

    fn failed(&self) -> (r: bool) {
        false
    }
}

impl BuffAction for PrudentTouch {}

impl CanExecute for PrudentTouch {}

impl TimePassing for PrudentTouch {}

impl ActionLevel for PrudentTouch {}

impl CpCost for PrudentTouch {}

impl DurabilityFactor for PrudentTouch {}

impl ProgressAction for PrudentTouch {}

impl QualityAction for PrudentTouch {}

impl Action for PrudentTouch {}

impl RandomAction for PrudentTouch {}

/// A quality action that fails half the time unless it follows Observe.
#[derive(Clone, Copy, PartialEq, Eq, Hash, Debug, Default, Structural)]
pub struct FocusedTouch;

impl ActionComponents for FocusedTouch {
    open spec fn spec_kind() -> FfxivCraftingActions {
        FfxivCraftingActions::FocusedTouch
    }

    open spec fn spec_failed() -> bool {
        false
    }

    fn kind(&self) -> (r: FfxivCraftingActions) {
        FfxivCraftingActions::FocusedTouch
    }

    fn failed(&self) -> (r: bool) {
        false
    }
}

impl BuffAction for FocusedTouch {}

impl CanExecute for FocusedTouch {}

impl TimePassing for FocusedTouch {}

impl ActionLevel for FocusedTouch {}

impl CpCost for FocusedTouch {}

impl DurabilityFactor for FocusedTouch {}

impl ProgressAction for FocusedTouch {}

impl QualityAction for FocusedTouch {}

impl Action for FocusedTouch {}

impl RandomAction for FocusedTouch {}

/// A quality action granting two Inner Quiet stacks; only on the first step.
#[derive(Clone, Copy, PartialEq, Eq, Hash, Debug, Default, Structural)]
pub struct Reflect;

impl ActionComponents for Reflect {
    open spec fn spec_kind() -> FfxivCraftingActions {
        FfxivCraftingActions::Reflect
    }

    open spec fn spec_failed() -> bool {
        false
    }

    fn kind(&self) -> (r: FfxivCraftingActions) {
        FfxivCraftingActions::Reflect
    }

    fn failed(&self) -> (r: bool) {
        false
    }
}

impl BuffAction for Reflect {}

impl CanExecute for Reflect {}

impl TimePassing for Reflect {}

impl ActionLevel for Reflect {}

impl CpCost for Reflect {}

impl DurabilityFactor for Reflect {}

impl ProgressAction for Reflect {}

impl QualityAction for Reflect {}

impl Action for Reflect {}

impl RandomAction for Reflect {}

/// A large quality gain for double durability, granting two Inner Quiet stacks.
#[derive(Clone, Copy, PartialEq, Eq, Hash, Debug, Default, Structural)]
pub struct PreparatoryTouch;

impl ActionComponents for PreparatoryTouch {
    open spec fn spec_kind() -> FfxivCraftingActions {
        FfxivCraftingActions::PreparatoryTouch
    }

    open spec fn spec_failed() -> bool {
        false
    }

    fn kind(&self) -> (r: FfxivCraftingActions) {
        FfxivCraftingActions::PreparatoryTouch
    }

    fn failed(&self) -> (r: bool) {
        false
    }
}

impl BuffAction for PreparatoryTouch {}

impl CanExecute for PreparatoryTouch {}

impl TimePassing for PreparatoryTouch {}

impl ActionLevel for PreparatoryTouch {}

impl CpCost for PreparatoryTouch {}

impl DurabilityFactor for PreparatoryTouch {}

impl ProgressAction for PreparatoryTouch {}

impl QualityAction for PreparatoryTouch {}

impl Action for PreparatoryTouch {}

impl RandomAction for PreparatoryTouch {}

/// Maximizes quality on the first step of a recipe at least 10 levels below the crafter; not for expert recipes.
#[derive(Clone, Copy, PartialEq, Eq, Hash, Debug, Default, Structural)]
pub struct TrainedEye;

impl ActionComponents for TrainedEye {
    open spec fn spec_kind() -> FfxivCraftingActions {
        FfxivCraftingActions::TrainedEye
    }

    open spec fn spec_failed() -> bool {
        false
    }

    fn kind(&self) -> (r: FfxivCraftingActions) {
        FfxivCraftingActions::TrainedEye
    }

    fn failed(&self) -> (r: bool) {
        false
    }
}

impl BuffAction for TrainedEye {}

impl CanExecute for TrainedEye {}

impl TimePassing for TrainedEye {}

impl ActionLevel for TrainedEye {}

impl CpCost for TrainedEye {}

impl DurabilityFactor for TrainedEye {}

impl ProgressAction for TrainedEye {}

impl QualityAction for TrainedEye {}

impl Action for TrainedEye {}

impl RandomAction for TrainedEye {}

/// A quality action that costs less after the Standard Touch combo.
#[derive(Clone, Copy, PartialEq, Eq, Hash, Debug, Default, Structural)]
pub struct AdvancedTouch;

impl ActionComponents for AdvancedTouch {
    open spec fn spec_kind() -> FfxivCraftingActions {
        FfxivCraftingActions::AdvancedTouch
    }

    open spec fn spec_failed() -> bool {
        false
    }

    fn kind(&self) -> (r: FfxivCraftingActions) {
        FfxivCraftingActions::AdvancedTouch
    }

    fn failed(&self) -> (r: bool) {
        false
    }
}

impl BuffAction for AdvancedTouch {}

impl CanExecute for AdvancedTouch {}

impl TimePassing for AdvancedTouch {}

impl ActionLevel for AdvancedTouch {}

impl CpCost for AdvancedTouch {}

impl DurabilityFactor for AdvancedTouch {}

impl ProgressAction for AdvancedTouch {}

impl QualityAction for AdvancedTouch {}

impl Action for AdvancedTouch {}

impl RandomAction for AdvancedTouch {}

/// A quality action that needs ten Inner Quiet stacks and uses no durability.
#[derive(Clone, Copy, PartialEq, Eq, Hash, Debug, Default, Structural)]
pub struct TrainedFinesse;

impl ActionComponents for TrainedFinesse {
    open spec fn spec_kind() -> FfxivCraftingActions {
        FfxivCraftingActions::TrainedFinesse
    }

    open spec fn spec_failed() -> bool {
        false
    }

    fn kind(&self) -> (r: FfxivCraftingActions) {
        FfxivCraftingActions::TrainedFinesse
    }

    fn failed(&self) -> (r: bool) {
        false
    }
}

impl BuffAction for TrainedFinesse {}

impl CanExecute for TrainedFinesse {}

impl TimePassing for TrainedFinesse {}

impl ActionLevel for TrainedFinesse {}

impl CpCost for TrainedFinesse {}

impl DurabilityFactor for TrainedFinesse {}

impl ProgressAction for TrainedFinesse {}

impl QualityAction for TrainedFinesse {}

impl Action for TrainedFinesse {}

impl RandomAction for TrainedFinesse {}

} // verus!
