//! The collection of all actions as one enum, with the tables of what each action
//! costs, uses and achieves.
use crate::buffs::combo::BasicTouchCombo;
use vstd::prelude::*;

verus! {

/// Every crafting action.
#[derive(Clone, Copy, PartialEq, Eq, Hash, Debug, Structural)]
pub enum FfxivCraftingActions {
    /// Progress actions are half again as efficient for 4 turns.
    Veneration,
    /// Actions use half the durability for 4 turns.
    WasteNot,
    /// The next quality action within 3 turns is twice as efficient.
    GreatStrides,
    /// Quality actions are half again as efficient for 4 turns.
    Innovation,
    /// For 5 turns, progress that would finish the craft stops one short; takes no time.
    FinalAppraisal,
    /// Actions use half the durability for 8 turns.
    WasteNot2,
    /// 5 durability is restored after each of the next 8 turns.
    Manipulation,
    /// Restores 30 durability.
    MastersMend,
    /// Does nothing, but makes the next focused action certain to succeed.
    Observe,
    /// Restores 20 CP; needs a Good or Excellent condition (or Heart and Soul).
    TricksOfTheTrade,
    /// Raises both progress and quality.
    DelicateSynthesis,
    /// A specialist action that changes the condition without passing time.
    CarefulObservation,
    /// A specialist action that allows one action needing a Good or Excellent condition; takes no time.
    HeartAndSoul,
    /// The simplest progress action.
    BasicSynthesis,
    /// A large progress gain that fails half the time.
    RapidSynthesis,
    /// A large progress gain on the first step, and 100 more efficiency for the next progress action.
    MuscleMemory,
    /// A progress action with more efficiency for more CP.
    CarefulSynthesis,
    /// A progress action that fails half the time unless it follows Observe.
    FocusedSynthesis,
    /// A large progress gain for double durability; half as efficient when durability runs short.
    Groundwork,
    /// A large progress gain; needs a Good or Excellent condition (or Heart and Soul).
    IntensiveSynthesis,
    /// A progress action for half durability; not usable under Waste Not.
    PrudentSynthesis,
    /// The simplest quality action; starts the touch combo.
    BasicTouch,
    /// A free quality action that fails 40% of the time.
    HastyTouch,
    /// A quality action that costs less after Basic Touch.
    StandardTouch,
    /// A quality action drawing on Inner Quiet's stacks, which it consumes.
    ByregotsBlessing,
    /// A quality action granting two Inner Quiet stacks; needs a Good or Excellent condition (or Heart and Soul).
    PreciseTouch,
    /// A quality action for half durability; not usable under Waste Not.
    PrudentTouch,
    /// A quality action that fails half the time unless it follows Observe.
    FocusedTouch,
    /// A quality action granting two Inner Quiet stacks; only on the first step.
    Reflect,
    /// A large quality gain for double durability, granting two Inner Quiet stacks.
    PreparatoryTouch,
    /// Maximizes quality on the first step of a recipe at least 10 levels below the crafter; not for expert recipes.
    TrainedEye,
    /// A quality action that costs less after the Standard Touch combo.
    AdvancedTouch,
    /// A quality action that needs ten Inner Quiet stacks and uses no durability.
    TrainedFinesse,
}

impl FfxivCraftingActions {
    /// The class level at which the action is learned.
    pub open spec fn spec_level(self) -> u16 {
        match self {
            FfxivCraftingActions::Veneration => 15,
            FfxivCraftingActions::WasteNot => 15,
            FfxivCraftingActions::GreatStrides => 21,
            FfxivCraftingActions::Innovation => 26,
            FfxivCraftingActions::FinalAppraisal => 42,
            FfxivCraftingActions::WasteNot2 => 47,
            FfxivCraftingActions::Manipulation => 65,
            FfxivCraftingActions::MastersMend => 7,
            FfxivCraftingActions::Observe => 13,
            FfxivCraftingActions::TricksOfTheTrade => 13,
            FfxivCraftingActions::DelicateSynthesis => 76,
            FfxivCraftingActions::CarefulObservation => 55,
            FfxivCraftingActions::HeartAndSoul => 86,
            FfxivCraftingActions::BasicSynthesis => 1,
            FfxivCraftingActions::RapidSynthesis => 9,
            FfxivCraftingActions::MuscleMemory => 54,
            FfxivCraftingActions::CarefulSynthesis => 62,
            FfxivCraftingActions::FocusedSynthesis => 67,
            FfxivCraftingActions::Groundwork => 72,
            FfxivCraftingActions::IntensiveSynthesis => 78,
            FfxivCraftingActions::PrudentSynthesis => 88,
            FfxivCraftingActions::BasicTouch => 5,
            FfxivCraftingActions::HastyTouch => 9,
            FfxivCraftingActions::StandardTouch => 9,
            FfxivCraftingActions::ByregotsBlessing => 50,
            FfxivCraftingActions::PreciseTouch => 53,
            FfxivCraftingActions::PrudentTouch => 66,
            FfxivCraftingActions::FocusedTouch => 68,
            FfxivCraftingActions::Reflect => 69,
            FfxivCraftingActions::PreparatoryTouch => 71,
            FfxivCraftingActions::TrainedEye => 80,
            FfxivCraftingActions::AdvancedTouch => 84,
            FfxivCraftingActions::TrainedFinesse => 90,
        }
    }

    /// The class level at which the action is learned.
    pub fn level(self) -> (r: u16)
        ensures
            r == self.spec_level(),
    {
        match self {
            FfxivCraftingActions::Veneration => 15,
            FfxivCraftingActions::WasteNot => 15,
            FfxivCraftingActions::GreatStrides => 21,
            FfxivCraftingActions::Innovation => 26,
            FfxivCraftingActions::FinalAppraisal => 42,
            FfxivCraftingActions::WasteNot2 => 47,
            FfxivCraftingActions::Manipulation => 65,
            FfxivCraftingActions::MastersMend => 7,
            FfxivCraftingActions::Observe => 13,
            FfxivCraftingActions::TricksOfTheTrade => 13,
            FfxivCraftingActions::DelicateSynthesis => 76,
            FfxivCraftingActions::CarefulObservation => 55,
            FfxivCraftingActions::HeartAndSoul => 86,
            FfxivCraftingActions::BasicSynthesis => 1,
            FfxivCraftingActions::RapidSynthesis => 9,
            FfxivCraftingActions::MuscleMemory => 54,
            FfxivCraftingActions::CarefulSynthesis => 62,
            FfxivCraftingActions::FocusedSynthesis => 67,
            FfxivCraftingActions::Groundwork => 72,
            FfxivCraftingActions::IntensiveSynthesis => 78,
            FfxivCraftingActions::PrudentSynthesis => 88,
            FfxivCraftingActions::BasicTouch => 5,
            FfxivCraftingActions::HastyTouch => 9,
            FfxivCraftingActions::StandardTouch => 9,
            FfxivCraftingActions::ByregotsBlessing => 50,
            FfxivCraftingActions::PreciseTouch => 53,
            FfxivCraftingActions::PrudentTouch => 66,
            FfxivCraftingActions::FocusedTouch => 68,
            FfxivCraftingActions::Reflect => 69,
            FfxivCraftingActions::PreparatoryTouch => 71,
            FfxivCraftingActions::TrainedEye => 80,
            FfxivCraftingActions::AdvancedTouch => 84,
            FfxivCraftingActions::TrainedFinesse => 90,
        }
    }

    /// The CP the action costs before the condition's modifier, given the touch combo
    /// in progress: Standard Touch after Basic Touch, and Advanced Touch after Standard
    /// Touch, cost as much as Basic Touch.
    pub open spec fn spec_cp_cost(self, combo: BasicTouchCombo) -> u16 {
        match self {
            FfxivCraftingActions::Veneration => 18,
            FfxivCraftingActions::WasteNot => 56,
            FfxivCraftingActions::GreatStrides => 32,
            FfxivCraftingActions::Innovation => 18,
            FfxivCraftingActions::FinalAppraisal => 1,
            FfxivCraftingActions::WasteNot2 => 98,
            FfxivCraftingActions::Manipulation => 96,
            FfxivCraftingActions::MastersMend => 88,
            FfxivCraftingActions::Observe => 7,
            FfxivCraftingActions::DelicateSynthesis => 32,
            FfxivCraftingActions::MuscleMemory => 6,
            FfxivCraftingActions::CarefulSynthesis => 7,
            FfxivCraftingActions::FocusedSynthesis => 5,
            FfxivCraftingActions::Groundwork => 18,
            FfxivCraftingActions::IntensiveSynthesis => 6,
            FfxivCraftingActions::PrudentSynthesis => 18,
            FfxivCraftingActions::BasicTouch => 18,
            FfxivCraftingActions::StandardTouch => if combo == BasicTouchCombo::BasicTouch { 18 } else { 32 },
            FfxivCraftingActions::ByregotsBlessing => 24,
            FfxivCraftingActions::PreciseTouch => 18,
            FfxivCraftingActions::PrudentTouch => 25,
            FfxivCraftingActions::FocusedTouch => 18,
            FfxivCraftingActions::Reflect => 6,
            FfxivCraftingActions::PreparatoryTouch => 40,
            FfxivCraftingActions::TrainedEye => 250,
            FfxivCraftingActions::AdvancedTouch => if combo == BasicTouchCombo::StandardTouch { 18 } else { 32 },
            FfxivCraftingActions::TrainedFinesse => 32,
            _ => 0,
        }
    }

    /// The CP the action costs before the condition's modifier.
    pub fn cp_cost(self, combo: BasicTouchCombo) -> (r: u16)
        ensures
            r == self.spec_cp_cost(combo),
    {
        match self {
            FfxivCraftingActions::Veneration => 18,
            FfxivCraftingActions::WasteNot => 56,
            FfxivCraftingActions::GreatStrides => 32,
            FfxivCraftingActions::Innovation => 18,
            FfxivCraftingActions::FinalAppraisal => 1,
            FfxivCraftingActions::WasteNot2 => 98,
            FfxivCraftingActions::Manipulation => 96,
            FfxivCraftingActions::MastersMend => 88,
            FfxivCraftingActions::Observe => 7,
            FfxivCraftingActions::DelicateSynthesis => 32,
            FfxivCraftingActions::MuscleMemory => 6,
            FfxivCraftingActions::CarefulSynthesis => 7,
            FfxivCraftingActions::FocusedSynthesis => 5,
            FfxivCraftingActions::Groundwork => 18,
            FfxivCraftingActions::IntensiveSynthesis => 6,
            FfxivCraftingActions::PrudentSynthesis => 18,
            FfxivCraftingActions::BasicTouch => 18,
            FfxivCraftingActions::StandardTouch => if matches!(combo, BasicTouchCombo::BasicTouch) { 18 } else { 32 },
            FfxivCraftingActions::ByregotsBlessing => 24,
            FfxivCraftingActions::PreciseTouch => 18,
            FfxivCraftingActions::PrudentTouch => 25,
            FfxivCraftingActions::FocusedTouch => 18,
            FfxivCraftingActions::Reflect => 6,
            FfxivCraftingActions::PreparatoryTouch => 40,
            FfxivCraftingActions::TrainedEye => 250,
            FfxivCraftingActions::AdvancedTouch => if matches!(combo, BasicTouchCombo::StandardTouch) { 18 } else { 32 },
            FfxivCraftingActions::TrainedFinesse => 32,
            _ => 0,
        }
    }

    /// The durability the action changes before any modifier: negative for a cost,
    /// positive for a repair.
    pub open spec fn spec_durability_usage(self) -> i8 {
        match self {
            FfxivCraftingActions::Veneration => 0,
            FfxivCraftingActions::WasteNot => 0,
            FfxivCraftingActions::GreatStrides => 0,
            FfxivCraftingActions::Innovation => 0,
            FfxivCraftingActions::FinalAppraisal => 0,
            FfxivCraftingActions::WasteNot2 => 0,
            FfxivCraftingActions::Manipulation => 0,
            FfxivCraftingActions::MastersMend => 30,
            FfxivCraftingActions::Observe => 0,
            FfxivCraftingActions::TricksOfTheTrade => 0,
            FfxivCraftingActions::CarefulObservation => 0,
            FfxivCraftingActions::HeartAndSoul => 0,
            FfxivCraftingActions::Groundwork => -20i8,
            FfxivCraftingActions::PrudentSynthesis => -5i8,
            FfxivCraftingActions::PrudentTouch => -5i8,
            FfxivCraftingActions::PreparatoryTouch => -20i8,
            FfxivCraftingActions::TrainedEye => 0,
            FfxivCraftingActions::TrainedFinesse => 0,
            _ => -10i8,
        }
    }

    /// The durability the action changes before any modifier.
    pub fn durability_usage(self) -> (r: i8)
        ensures
            r == self.spec_durability_usage(),
    {
        match self {
            FfxivCraftingActions::Veneration => 0,
            FfxivCraftingActions::WasteNot => 0,
            FfxivCraftingActions::GreatStrides => 0,
            FfxivCraftingActions::Innovation => 0,
            FfxivCraftingActions::FinalAppraisal => 0,
            FfxivCraftingActions::WasteNot2 => 0,
            FfxivCraftingActions::Manipulation => 0,
            FfxivCraftingActions::MastersMend => 30,
            FfxivCraftingActions::Observe => 0,
            FfxivCraftingActions::TricksOfTheTrade => 0,
            FfxivCraftingActions::CarefulObservation => 0,
            FfxivCraftingActions::HeartAndSoul => 0,
            FfxivCraftingActions::Groundwork => -20i8,
            FfxivCraftingActions::PrudentSynthesis => -5i8,
            FfxivCraftingActions::PrudentTouch => -5i8,
            FfxivCraftingActions::PreparatoryTouch => -20i8,
            FfxivCraftingActions::TrainedEye => 0,
            FfxivCraftingActions::TrainedFinesse => 0,
            _ => -10i8,
        }
    }

    /// The progress efficiency of the action, in percent, for a crafter of
    /// `char_level`; 0 for actions that make no progress.
    pub open spec fn spec_progress_efficiency(self, char_level: u8) -> u16 {
        match self {
            FfxivCraftingActions::DelicateSynthesis => 100,
            FfxivCraftingActions::BasicSynthesis => if char_level >= 31 { 120 } else { 100 },
            FfxivCraftingActions::RapidSynthesis => if char_level >= 63 { 500 } else { 250 },
            FfxivCraftingActions::MuscleMemory => 300,
            FfxivCraftingActions::CarefulSynthesis => if char_level >= 82 { 180 } else { 150 },
            FfxivCraftingActions::FocusedSynthesis => 200,
            FfxivCraftingActions::Groundwork => if char_level >= 86 { 360 } else { 300 },
            FfxivCraftingActions::IntensiveSynthesis => 400,
            FfxivCraftingActions::PrudentSynthesis => 180,
            _ => 0,
        }
    }

    /// The progress efficiency of the action for a crafter of `char_level`.
    pub fn progress_efficiency(self, char_level: u8) -> (r: u16)
        ensures
            r == self.spec_progress_efficiency(char_level),
    {
        match self {
            FfxivCraftingActions::DelicateSynthesis => 100,
            FfxivCraftingActions::BasicSynthesis => if char_level >= 31 { 120 } else { 100 },
            FfxivCraftingActions::RapidSynthesis => if char_level >= 63 { 500 } else { 250 },
            FfxivCraftingActions::MuscleMemory => 300,
            FfxivCraftingActions::CarefulSynthesis => if char_level >= 82 { 180 } else { 150 },
            FfxivCraftingActions::FocusedSynthesis => 200,
            FfxivCraftingActions::Groundwork => if char_level >= 86 { 360 } else { 300 },
            FfxivCraftingActions::IntensiveSynthesis => 400,
            FfxivCraftingActions::PrudentSynthesis => 180,
            _ => 0,
        }
    }

    /// The quality efficiency of the action, in percent, with `inner_quiet` stacks;
    /// 0 for actions that raise no quality in this way.
    pub open spec fn spec_quality_efficiency(self, inner_quiet: u8) -> u16 {
        match self {
            FfxivCraftingActions::DelicateSynthesis => 100,
            FfxivCraftingActions::BasicTouch => 100,
            FfxivCraftingActions::HastyTouch => 100,
            FfxivCraftingActions::StandardTouch => 125,
            FfxivCraftingActions::ByregotsBlessing => (100 + 20 * inner_quiet) as u16,
            FfxivCraftingActions::PreciseTouch => 150,
            FfxivCraftingActions::PrudentTouch => 100,
            FfxivCraftingActions::FocusedTouch => 150,
            FfxivCraftingActions::Reflect => 100,
            FfxivCraftingActions::PreparatoryTouch => 200,
            FfxivCraftingActions::AdvancedTouch => 150,
            FfxivCraftingActions::TrainedFinesse => 100,
            _ => 0,
        }
    }

    /// The quality efficiency of the action with `inner_quiet` stacks (at most ten).
    pub fn quality_efficiency(self, inner_quiet: u8) -> (r: u16)
        requires
            inner_quiet <= 10,
        ensures
            r == self.spec_quality_efficiency(inner_quiet),
    {
        match self {
            FfxivCraftingActions::DelicateSynthesis => 100,
            FfxivCraftingActions::BasicTouch => 100,
            FfxivCraftingActions::HastyTouch => 100,
            FfxivCraftingActions::StandardTouch => 125,
            FfxivCraftingActions::ByregotsBlessing => 100 + 20 * inner_quiet as u16,
            FfxivCraftingActions::PreciseTouch => 150,
            FfxivCraftingActions::PrudentTouch => 100,
            FfxivCraftingActions::FocusedTouch => 150,
            FfxivCraftingActions::Reflect => 100,
            FfxivCraftingActions::PreparatoryTouch => 200,
            FfxivCraftingActions::AdvancedTouch => 150,
            FfxivCraftingActions::TrainedFinesse => 100,
            _ => 0,
        }
    }

    /// Whether the action is a touch that consumes Great Strides.
    pub open spec fn spec_consumes_great_strides(self) -> bool {
        match self {
            FfxivCraftingActions::BasicTouch => true,
            FfxivCraftingActions::HastyTouch => true,
            FfxivCraftingActions::StandardTouch => true,
            FfxivCraftingActions::ByregotsBlessing => true,
            FfxivCraftingActions::PreciseTouch => true,
            FfxivCraftingActions::PrudentTouch => true,
            FfxivCraftingActions::FocusedTouch => true,
            FfxivCraftingActions::Reflect => true,
            FfxivCraftingActions::PreparatoryTouch => true,
            FfxivCraftingActions::AdvancedTouch => true,
            FfxivCraftingActions::TrainedFinesse => true,
            FfxivCraftingActions::DelicateSynthesis => true,
            _ => false,
        }
    }

    /// Whether the action is a touch that consumes Great Strides.
    pub fn consumes_great_strides(self) -> (r: bool)
        ensures
            r == self.spec_consumes_great_strides(),
    {
        match self {
            FfxivCraftingActions::BasicTouch => true,
            FfxivCraftingActions::HastyTouch => true,
            FfxivCraftingActions::StandardTouch => true,
            FfxivCraftingActions::ByregotsBlessing => true,
            FfxivCraftingActions::PreciseTouch => true,
            FfxivCraftingActions::PrudentTouch => true,
            FfxivCraftingActions::FocusedTouch => true,
            FfxivCraftingActions::Reflect => true,
            FfxivCraftingActions::PreparatoryTouch => true,
            FfxivCraftingActions::AdvancedTouch => true,
            FfxivCraftingActions::TrainedFinesse => true,
            FfxivCraftingActions::DelicateSynthesis => true,
            _ => false,
        }
    }

    /// Whether the action is a synthesis that consumes Muscle Memory.
    pub open spec fn spec_consumes_muscle_memory(self) -> bool {
        match self {
            FfxivCraftingActions::BasicSynthesis => true,
            FfxivCraftingActions::RapidSynthesis => true,
            FfxivCraftingActions::CarefulSynthesis => true,
            FfxivCraftingActions::FocusedSynthesis => true,
            FfxivCraftingActions::Groundwork => true,
            FfxivCraftingActions::IntensiveSynthesis => true,
            FfxivCraftingActions::PrudentSynthesis => true,
            FfxivCraftingActions::DelicateSynthesis => true,
            _ => false,
        }
    }

    /// Whether the action is a synthesis that consumes Muscle Memory.
    pub fn consumes_muscle_memory(self) -> (r: bool)
        ensures
            r == self.spec_consumes_muscle_memory(),
    {
        match self {
            FfxivCraftingActions::BasicSynthesis => true,
            FfxivCraftingActions::RapidSynthesis => true,
            FfxivCraftingActions::CarefulSynthesis => true,
            FfxivCraftingActions::FocusedSynthesis => true,
            FfxivCraftingActions::Groundwork => true,
            FfxivCraftingActions::IntensiveSynthesis => true,
            FfxivCraftingActions::PrudentSynthesis => true,
            FfxivCraftingActions::DelicateSynthesis => true,
            _ => false,
        }
    }

    /// Whether the action needs a Good or Excellent condition, or Heart and Soul, which it then consumes.
    pub open spec fn spec_needs_good_or_excellent(self) -> bool {
        match self {
            FfxivCraftingActions::IntensiveSynthesis => true,
            FfxivCraftingActions::PreciseTouch => true,
            FfxivCraftingActions::TricksOfTheTrade => true,
            _ => false,
        }
    }

    /// Whether the action needs a Good or Excellent condition, or Heart and Soul, which it then consumes.
    pub fn needs_good_or_excellent(self) -> (r: bool)
        ensures
            r == self.spec_needs_good_or_excellent(),
    {
        match self {
            FfxivCraftingActions::IntensiveSynthesis => true,
            FfxivCraftingActions::PreciseTouch => true,
            FfxivCraftingActions::TricksOfTheTrade => true,
            _ => false,
        }
    }

    /// Whether the action takes no time: buffs do not tick down and the condition does not change.
    pub open spec fn spec_stops_time(self) -> bool {
        match self {
            FfxivCraftingActions::FinalAppraisal => true,
            FfxivCraftingActions::HeartAndSoul => true,
            FfxivCraftingActions::CarefulObservation => true,
            _ => false,
        }
    }

    /// Whether the action takes no time: buffs do not tick down and the condition does not change.
    pub fn stops_time(self) -> (r: bool)
        ensures
            r == self.spec_stops_time(),
    {
        match self {
            FfxivCraftingActions::FinalAppraisal => true,
            FfxivCraftingActions::HeartAndSoul => true,
            FfxivCraftingActions::CarefulObservation => true,
            _ => false,
        }
    }

    /// Whether the action can only open a craft.
    pub open spec fn spec_needs_first_step(self) -> bool {
        match self {
            FfxivCraftingActions::MuscleMemory => true,
            FfxivCraftingActions::Reflect => true,
            FfxivCraftingActions::TrainedEye => true,
            _ => false,
        }
    }

    /// Whether the action can only open a craft.
    pub fn needs_first_step(self) -> (r: bool)
        ensures
            r == self.spec_needs_first_step(),
    {
        match self {
            FfxivCraftingActions::MuscleMemory => true,
            FfxivCraftingActions::Reflect => true,
            FfxivCraftingActions::TrainedEye => true,
            _ => false,
        }
    }

    /// Whether the action cannot be used under Waste Not.
    pub open spec fn spec_needs_no_waste_not(self) -> bool {
        match self {
            FfxivCraftingActions::PrudentSynthesis => true,
            FfxivCraftingActions::PrudentTouch => true,
            _ => false,
        }
    }

    /// Whether the action cannot be used under Waste Not.
    pub fn needs_no_waste_not(self) -> (r: bool)
        ensures
            r == self.spec_needs_no_waste_not(),
    {
        match self {
            FfxivCraftingActions::PrudentSynthesis => true,
            FfxivCraftingActions::PrudentTouch => true,
            _ => false,
        }
    }

    /// Whether the action spends a specialist delineation.
    pub open spec fn spec_is_specialist(self) -> bool {
        match self {
            FfxivCraftingActions::HeartAndSoul => true,
            FfxivCraftingActions::CarefulObservation => true,
            _ => false,
        }
    }

    /// Whether the action spends a specialist delineation.
    pub fn is_specialist(self) -> (r: bool)
        ensures
            r == self.spec_is_specialist(),
    {
        match self {
            FfxivCraftingActions::HeartAndSoul => true,
            FfxivCraftingActions::CarefulObservation => true,
            _ => false,
        }
    }

    /// The Inner Quiet stacks the action grants.
    pub open spec fn spec_inner_quiet_gain(self) -> u8 {
        match self {
            FfxivCraftingActions::BasicTouch => 1,
            FfxivCraftingActions::HastyTouch => 1,
            FfxivCraftingActions::StandardTouch => 1,
            FfxivCraftingActions::PrudentTouch => 1,
            FfxivCraftingActions::FocusedTouch => 1,
            FfxivCraftingActions::AdvancedTouch => 1,
            FfxivCraftingActions::DelicateSynthesis => 1,
            FfxivCraftingActions::PreciseTouch => 2,
            FfxivCraftingActions::Reflect => 2,
            FfxivCraftingActions::PreparatoryTouch => 2,
            _ => 0,
        }
    }

    /// The Inner Quiet stacks the action grants.
    pub fn inner_quiet_gain(self) -> (r: u8)
        ensures
            r == self.spec_inner_quiet_gain(),
    {
        match self {
            FfxivCraftingActions::BasicTouch => 1,
            FfxivCraftingActions::HastyTouch => 1,
            FfxivCraftingActions::StandardTouch => 1,
            FfxivCraftingActions::PrudentTouch => 1,
            FfxivCraftingActions::FocusedTouch => 1,
            FfxivCraftingActions::AdvancedTouch => 1,
            FfxivCraftingActions::DelicateSynthesis => 1,
            FfxivCraftingActions::PreciseTouch => 2,
            FfxivCraftingActions::Reflect => 2,
            FfxivCraftingActions::PreparatoryTouch => 2,
            _ => 0,
        }
    }

    /// The percentage chance that the action fails before the condition's modifier.
    pub open spec fn spec_base_fail_rate(self) -> u8 {
        match self {
            FfxivCraftingActions::RapidSynthesis => 50,
            FfxivCraftingActions::HastyTouch => 40,
            FfxivCraftingActions::FocusedSynthesis => 50,
            FfxivCraftingActions::FocusedTouch => 50,
            _ => 0,
        }
    }

    /// The percentage chance that the action fails before the condition's modifier.
    pub fn base_fail_rate(self) -> (r: u8)
        ensures
            r == self.spec_base_fail_rate(),
    {
        match self {
            FfxivCraftingActions::RapidSynthesis => 50,
            FfxivCraftingActions::HastyTouch => 40,
            FfxivCraftingActions::FocusedSynthesis => 50,
            FfxivCraftingActions::FocusedTouch => 50,
            _ => 0,
        }
    }
    /// Whether the action is certain to succeed right after Observe.
    pub open spec fn spec_is_focused(self) -> bool {
        match self {
            FfxivCraftingActions::FocusedSynthesis => true,
            FfxivCraftingActions::FocusedTouch => true,
            _ => false,
        }
    }

    /// Whether the action is certain to succeed right after Observe.
    pub fn is_focused(self) -> (r: bool)
        ensures
            r == self.spec_is_focused(),
    {
        match self {
            FfxivCraftingActions::FocusedSynthesis => true,
            FfxivCraftingActions::FocusedTouch => true,
            _ => false,
        }
    }
}

} // verus!
