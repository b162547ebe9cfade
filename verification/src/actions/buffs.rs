//! Actions whose purpose is to grant a buff, such as Veneration.
use super::collection::FfxivCraftingActions;
use super::traits::{
    Action, ActionComponents, ActionLevel, BuffAction, CanExecute, CpCost, DurabilityFactor,
    ProgressAction, QualityAction, RandomAction, TimePassing,
};
use vstd::prelude::*;

verus! {

/// Progress actions are half again as efficient for 4 turns.
#[derive(Clone, Copy, PartialEq, Eq, Hash, Debug, Default, Structural)]
pub struct Veneration;

impl ActionComponents for Veneration {
    open spec fn spec_kind() -> FfxivCraftingActions {
        FfxivCraftingActions::Veneration
    }

    open spec fn spec_failed() -> bool {
        false
    }

    fn kind(&self) -> (r: FfxivCraftingActions) {
        FfxivCraftingActions::Veneration
    }

    fn failed(&self) -> (r: bool) {
        false
    }
}

impl BuffAction for Veneration {}

impl CanExecute for Veneration {}

impl TimePassing for Veneration {}

impl ActionLevel for Veneration {}

impl CpCost for Veneration {}

impl DurabilityFactor for Veneration {}

impl ProgressAction for Veneration {}

impl QualityAction for Veneration {}

impl Action for Veneration {}

impl RandomAction for Veneration {}

/// Actions use half the durability for 4 turns.
#[derive(Clone, Copy, PartialEq, Eq, Hash, Debug, Default, Structural)]
pub struct WasteNot;

impl ActionComponents for WasteNot {
    open spec fn spec_kind() -> FfxivCraftingActions {
        FfxivCraftingActions::WasteNot
    }

    open spec fn spec_failed() -> bool {
        false
    }

    fn kind(&self) -> (r: FfxivCraftingActions) {
        FfxivCraftingActions::WasteNot
    }

    fn failed(&self) -> (r: bool) {
        false
    }
}

impl BuffAction for WasteNot {}

impl CanExecute for WasteNot {}

impl TimePassing for WasteNot {}

impl ActionLevel for WasteNot {}

impl CpCost for WasteNot {}

impl DurabilityFactor for WasteNot {}

impl ProgressAction for WasteNot {}

impl QualityAction for WasteNot {}

impl Action for WasteNot {}

impl RandomAction for WasteNot {}

/// The next quality action within 3 turns is twice as efficient.
#[derive(Clone, Copy, PartialEq, Eq, Hash, Debug, Default, Structural)]
pub struct GreatStrides;

impl ActionComponents for GreatStrides {
    open spec fn spec_kind() -> FfxivCraftingActions {
        FfxivCraftingActions::GreatStrides
    }

    open spec fn spec_failed() -> bool {
        false
    }

    fn kind(&self) -> (r: FfxivCraftingActions) {
        FfxivCraftingActions::GreatStrides
    }

    fn failed(&self) -> (r: bool) {
        false
    }
}

impl BuffAction for GreatStrides {}

impl CanExecute for GreatStrides {}

impl TimePassing for GreatStrides {}

impl ActionLevel for GreatStrides {}

impl CpCost for GreatStrides {}

impl DurabilityFactor for GreatStrides {}

impl ProgressAction for GreatStrides {}

impl QualityAction for GreatStrides {}

impl Action for GreatStrides {}

impl RandomAction for GreatStrides {}

/// Quality actions are half again as efficient for 4 turns.
#[derive(Clone, Copy, PartialEq, Eq, Hash, Debug, Default, Structural)]
pub struct Innovation;

impl ActionComponents for Innovation {
    open spec fn spec_kind() -> FfxivCraftingActions {
        FfxivCraftingActions::Innovation
    }

    open spec fn spec_failed() -> bool {
        false
    }

    fn kind(&self) -> (r: FfxivCraftingActions) {
        FfxivCraftingActions::Innovation
    }

    fn failed(&self) -> (r: bool) {
        false
    }
}

impl BuffAction for Innovation {}

impl CanExecute for Innovation {}

impl TimePassing for Innovation {}

impl ActionLevel for Innovation {}

impl CpCost for Innovation {}

impl DurabilityFactor for Innovation {}

impl ProgressAction for Innovation {}

impl QualityAction for Innovation {}

impl Action for Innovation {}

impl RandomAction for Innovation {}

/// For 5 turns, progress that would finish the craft stops one short; takes no time.
#[derive(Clone, Copy, PartialEq, Eq, Hash, Debug, Default, Structural)]
pub struct FinalAppraisal;

impl ActionComponents for FinalAppraisal {
    open spec fn spec_kind() -> FfxivCraftingActions {
        FfxivCraftingActions::FinalAppraisal
    }

    open spec fn spec_failed() -> bool {
        false
    }

    fn kind(&self) -> (r: FfxivCraftingActions) {
        FfxivCraftingActions::FinalAppraisal
    }

    fn failed(&self) -> (r: bool) {
        false
    }
}

impl BuffAction for FinalAppraisal {}

impl CanExecute for FinalAppraisal {}

impl TimePassing for FinalAppraisal {}

impl ActionLevel for FinalAppraisal {}

impl CpCost for FinalAppraisal {}

impl DurabilityFactor for FinalAppraisal {}

impl ProgressAction for FinalAppraisal {}

impl QualityAction for FinalAppraisal {}

impl Action for FinalAppraisal {}

impl RandomAction for FinalAppraisal {}

/// Actions use half the durability for 8 turns.
#[derive(Clone, Copy, PartialEq, Eq, Hash, Debug, Default, Structural)]
pub struct WasteNot2;

impl ActionComponents for WasteNot2 {
    open spec fn spec_kind() -> FfxivCraftingActions {
        FfxivCraftingActions::WasteNot2
    }

    open spec fn spec_failed() -> bool {
        false
    }

    fn kind(&self) -> (r: FfxivCraftingActions) {
        FfxivCraftingActions::WasteNot2
    }

    fn failed(&self) -> (r: bool) {
        false
    }
}

impl BuffAction for WasteNot2 {}

impl CanExecute for WasteNot2 {}

impl TimePassing for WasteNot2 {}

impl ActionLevel for WasteNot2 {}

impl CpCost for WasteNot2 {}

impl DurabilityFactor for WasteNot2 {}

impl ProgressAction for WasteNot2 {}

impl QualityAction for WasteNot2 {}

impl Action for WasteNot2 {}

impl RandomAction for WasteNot2 {}

/// 5 durability is restored after each of the next 8 turns.
#[derive(Clone, Copy, PartialEq, Eq, Hash, Debug, Default, Structural)]
pub struct Manipulation;

impl ActionComponents for Manipulation {
    open spec fn spec_kind() -> FfxivCraftingActions {
        FfxivCraftingActions::Manipulation
    }

    open spec fn spec_failed() -> bool {
        false
    }

    fn kind(&self) -> (r: FfxivCraftingActions) {
        FfxivCraftingActions::Manipulation
    }

    fn failed(&self) -> (r: bool) {
        false
    }
}

impl BuffAction for Manipulation {}

impl CanExecute for Manipulation {}

impl TimePassing for Manipulation {}

impl ActionLevel for Manipulation {}

impl CpCost for Manipulation {}

impl DurabilityFactor for Manipulation {}

impl ProgressAction for Manipulation {}

impl QualityAction for Manipulation {}

impl Action for Manipulation {}

impl RandomAction for Manipulation {}

/// A specialist action that allows one action needing a Good or Excellent condition; takes no time.
#[derive(Clone, Copy, PartialEq, Eq, Hash, Debug, Default, Structural)]
pub struct HeartAndSoul;

impl ActionComponents for HeartAndSoul {
    open spec fn spec_kind() -> FfxivCraftingActions {
        FfxivCraftingActions::HeartAndSoul
    }

    open spec fn spec_failed() -> bool {
        false
    }

    fn kind(&self) -> (r: FfxivCraftingActions) {
        FfxivCraftingActions::HeartAndSoul
    }

    fn failed(&self) -> (r: bool) {
        false
    }
}

impl BuffAction for HeartAndSoul {}

impl CanExecute for HeartAndSoul {}

impl TimePassing for HeartAndSoul {}

impl ActionLevel for HeartAndSoul {}

impl CpCost for HeartAndSoul {}

impl DurabilityFactor for HeartAndSoul {}

impl ProgressAction for HeartAndSoul {}

impl QualityAction for HeartAndSoul {}

impl Action for HeartAndSoul {}

impl RandomAction for HeartAndSoul {}

} // verus!
