//! Crafting conditions: the per-step state that modifies the potency of actions,
//! the raw condition bitfields used by recipe levels, and the transition rules
//! that choose the next condition from a percentile roll.
use vstd::prelude::*;

verus! {

/// The flag of the Normal condition in a recipe level's condition bitfield.
pub const RAW_NORMAL: u16 = 0x01;
/// The flag of the Good condition.
pub const RAW_GOOD: u16 = 0x02;
/// The flag of the Excellent condition.
pub const RAW_EXCELLENT: u16 = 0x04;
/// The flag of the Poor condition.
pub const RAW_POOR: u16 = 0x08;
/// The flag of the Centered condition.
pub const RAW_CENTERED: u16 = 0x10;
/// The flag of the Pliant condition.
pub const RAW_PLIANT: u16 = 0x20;
/// The flag of the Sturdy condition.
pub const RAW_STURDY: u16 = 0x40;
/// The flag of the Malleable condition.
pub const RAW_MALLEABLE: u16 = 0x80;
/// The flag of the Primed condition.
pub const RAW_PRIMED: u16 = 0x100;

/// Normal/Good/Excellent/Poor: the regular set of conditions (15).
pub const NORMAL_CONDITIONS: u16 = 15;
/// Normal/Good/Centered/Pliant/Sturdy: the relic expert set (115).
pub const EXPERT_CRAFT_1: u16 = 115;
/// Normal/Good/Pliant/Sturdy/Malleable/Primed: the restoration expert set (483).
pub const EXPERT_CRAFT_2: u16 = 483;
/// Every condition except Excellent and Poor; no recipe in use has it (499).
pub const ALL_EXPERT_CONDITIONS_UNUSED: u16 = 499;

/// The named condition sets are exactly the unions of the flags they list.
pub proof fn lemma_condition_sets_are_flag_unions()
    ensures
        NORMAL_CONDITIONS == RAW_NORMAL | RAW_GOOD | RAW_EXCELLENT | RAW_POOR,
        EXPERT_CRAFT_1 == RAW_NORMAL | RAW_GOOD | RAW_CENTERED | RAW_PLIANT | RAW_STURDY,
        EXPERT_CRAFT_2 == RAW_NORMAL | RAW_GOOD | RAW_PLIANT | RAW_STURDY | RAW_MALLEABLE
            | RAW_PRIMED,
        ALL_EXPERT_CONDITIONS_UNUSED == RAW_NORMAL | RAW_GOOD | RAW_CENTERED | RAW_PLIANT
            | RAW_STURDY | RAW_MALLEABLE | RAW_PRIMED,
{
    assert(15u16 == 0x01u16 | 0x02u16 | 0x04u16 | 0x08u16) by (bit_vector);
    assert(115u16 == 0x01u16 | 0x02u16 | 0x10u16 | 0x20u16 | 0x40u16) by (bit_vector);
    assert(483u16 == 0x01u16 | 0x02u16 | 0x20u16 | 0x40u16 | 0x80u16 | 0x100u16) by (bit_vector);
    assert(499u16 == 0x01u16 | 0x02u16 | 0x10u16 | 0x20u16 | 0x40u16 | 0x80u16 | 0x100u16)
        by (bit_vector);
}

/// The raw bits that make up a set of conditions.
#[derive(Clone, Copy, Debug, Hash, PartialEq, Eq, Structural)]
pub struct ConditionBits(pub u16);

/// Maps a condition to the raw modifier (before dividing by 100) used in quality math.
#[derive(Clone, Copy, Debug, Hash, PartialEq, Eq, Structural)]
pub enum QualityModifier {
    Poor,
    Normal,
    Good,
    Excellent,
}

impl QualityModifier {
    pub open spec fn spec_value(self) -> u16 {
        match self {
            QualityModifier::Poor => 50,
            QualityModifier::Normal => 100,
            QualityModifier::Good => 150,
            QualityModifier::Excellent => 400,
        }
    }

    /// The raw modifier: 50, 100, 150 or 400.
    pub fn value(self) -> (r: u16)
        ensures
            r == self.spec_value(),
    {
        match self {
            QualityModifier::Poor => 50,
            QualityModifier::Normal => 100,
            QualityModifier::Good => 150,
            QualityModifier::Excellent => 400,
        }
    }
}

/// Maps a condition to the raw modifier (before dividing by 100) used in progress math.
#[derive(Clone, Copy, Debug, Hash, PartialEq, Eq, Structural)]
pub enum ProgressModifier {
    Malleable,
    Normal,
}

impl ProgressModifier {
    pub open spec fn spec_value(self) -> u16 {
        match self {
            ProgressModifier::Malleable => 150,
            ProgressModifier::Normal => 100,
        }
    }

    /// The raw modifier: 150 or 100.
    pub fn value(self) -> (r: u16)
        ensures
            r == self.spec_value(),
    {
        match self {
            ProgressModifier::Malleable => 150,
            ProgressModifier::Normal => 100,
        }
    }
}

/// Maps a condition to the raw bonus to success rates.
#[derive(Clone, Copy, Debug, Hash, PartialEq, Eq, Structural)]
pub enum SuccessRateModifier {
    Centered,
    Normal,
}

impl SuccessRateModifier {
    pub open spec fn spec_value(self) -> u8 {
        match self {
            SuccessRateModifier::Centered => 25,
            SuccessRateModifier::Normal => 0,
        }
    }

    /// The raw bonus: 25 or 0.
    pub fn value(self) -> (r: u8)
        ensures
            r == self.spec_value(),
    {
        match self {
            SuccessRateModifier::Centered => 25,
            SuccessRateModifier::Normal => 0,
        }
    }
}

/// Maps a condition to the raw modifier (before dividing by 100) used in durability math.
#[derive(Clone, Copy, Debug, Hash, PartialEq, Eq, Structural)]
pub enum DurabilityModifier {
    Sturdy,
    Normal,
}

impl DurabilityModifier {
    pub open spec fn spec_value(self) -> u16 {
        match self {
            DurabilityModifier::Sturdy => 50,
            DurabilityModifier::Normal => 100,
        }
    }

    /// The raw modifier: 50 or 100.
    pub fn value(self) -> (r: u16)
        ensures
            r == self.spec_value(),
    {
        match self {
            DurabilityModifier::Sturdy => 50,
            DurabilityModifier::Normal => 100,
        }
    }
}

/// Maps a condition to the raw number of turns added on to newly applied statuses.
#[derive(Clone, Copy, Debug, Hash, PartialEq, Eq, Structural)]
pub enum StatusDurationModifier {
    Primed,
    Normal,
}

impl StatusDurationModifier {
    pub open spec fn spec_value(self) -> u8 {
        match self {
            StatusDurationModifier::Primed => 2,
            StatusDurationModifier::Normal => 0,
        }
    }

    /// The raw bonus: 2 or 0.
    pub fn value(self) -> (r: u8)
        ensures
            r == self.spec_value(),
    {
        match self {
            StatusDurationModifier::Primed => 2,
            StatusDurationModifier::Normal => 0,
        }
    }
}

/// Maps a condition to the raw modifier (before dividing by 100) used in CP cost math.
#[derive(Clone, Copy, Debug, Hash, PartialEq, Eq, Structural)]
pub enum CpUsageModifier {
    Pliant,
    Normal,
}

impl CpUsageModifier {
    pub open spec fn spec_value(self) -> u16 {
        match self {
            CpUsageModifier::Pliant => 50,
            CpUsageModifier::Normal => 100,
        }
    }

    /// The raw modifier: 50 or 100.
    pub fn value(self) -> (r: u16)
        ensures
            r == self.spec_value(),
    {
        match self {
            CpUsageModifier::Pliant => 50,
            CpUsageModifier::Normal => 100,
        }
    }
}

/// The general trait all condition sets implement. It maps each condition to its
/// modifiers; a condition that does not affect a property maps to `Normal` for it.
/// `next_from_roll` gives the condition that follows the current one for a percentile
/// roll in `[0, 100)`.
pub trait Condition: Sized + Copy {
    spec fn spec_quality_modifier(self) -> QualityModifier;

    spec fn spec_progress_modifier(self) -> ProgressModifier;

    spec fn spec_success_rate_modifier(self) -> SuccessRateModifier;

    spec fn spec_durability_modifier(self) -> DurabilityModifier;

    spec fn spec_status_duration_modifier(self) -> StatusDurationModifier;

    spec fn spec_cp_usage_modifier(self) -> CpUsageModifier;

    spec fn spec_is_good(self) -> bool;

    spec fn spec_is_excellent(self) -> bool;

    spec fn spec_expert() -> bool;

    spec fn spec_bits() -> u16;

    spec fn spec_initial() -> Self;

    spec fn spec_next(self, roll: int) -> Self;

    /// Whether the condition that follows depends on a roll.
    spec fn spec_needs_roll(self) -> bool;

    fn to_quality_modifier(self) -> (r: QualityModifier)
        ensures
            r == self.spec_quality_modifier(),
    ;

    fn to_progress_modifier(self) -> (r: ProgressModifier)
        ensures
            r == self.spec_progress_modifier(),
    ;

    fn to_success_rate_modifier(self) -> (r: SuccessRateModifier)
        ensures
            r == self.spec_success_rate_modifier(),
    ;

    fn to_durability_modifier(self) -> (r: DurabilityModifier)
        ensures
            r == self.spec_durability_modifier(),
    ;

    fn to_status_duration_modifier(self) -> (r: StatusDurationModifier)
        ensures
            r == self.spec_status_duration_modifier(),
    ;

    fn to_cp_usage_modifier(self) -> (r: CpUsageModifier)
        ensures
            r == self.spec_cp_usage_modifier(),
    ;

    fn is_good(self) -> (r: bool)
        ensures
            r == self.spec_is_good(),
    ;

    fn is_excellent(self) -> (r: bool)
        ensures
            r == self.spec_is_excellent(),
    ;

    /// Whether this is a set of expert-crafting conditions.
    fn expert() -> (r: bool)
        ensures
            r == Self::spec_expert(),
    ;

    /// The bitfield of the conditions in this set.
    fn bits() -> (r: ConditionBits)
        ensures
            r.0 == Self::spec_bits(),
    ;

    /// The condition a craft starts in (`Normal`).
    fn initial() -> (r: Self)
        ensures
            r == Self::spec_initial(),
    ;

    /// Whether the condition that follows depends on a roll.
    fn needs_roll(self) -> (r: bool)
        ensures
            r == self.spec_needs_roll(),
    ;

    /// The condition that follows `self` given a percentile roll.
    fn next_from_roll(self, roll: u8) -> (r: Self)
        requires
            roll < 100,
        ensures
            r == self.spec_next(roll as int),
    ;

    /// Whether `self` and `other` are the same condition.
    fn same(self, other: Self) -> (r: bool)
        ensures
            r == (self == other),
    ;
}

/// The regular set of conditions before the Quality Assurance trait: after `Normal`,
/// a roll below 20 gives `Good`, below 24 `Excellent`; `Excellent` is always followed by
/// `Poor`, and `Good` and `Poor` by `Normal`.
#[derive(Clone, Copy, Debug, Hash, PartialEq, Eq, PartialOrd, Ord, Default, Structural)]
pub enum NoQARegularConditions {
    #[default]
    Normal,
    Good,
    Excellent,
    Poor,
}

/// The regular set of conditions after the Quality Assurance trait: after `Normal`,
/// a roll below 25 gives `Good`, below 29 `Excellent`; `Excellent` is always followed by
/// `Poor`, and `Good` and `Poor` by `Normal`.
#[derive(Clone, Copy, Debug, Hash, PartialEq, Eq, PartialOrd, Ord, Default, Structural)]
pub enum QARegularConditions {
    #[default]
    Normal,
    Good,
    Excellent,
    Poor,
}

/// The expert conditions of the Shadowbringers relic crafts (`EXPERT_CRAFT_1`). Each step
/// is drawn independently: Good 12%, Centered 15%, Pliant 12%, Sturdy 15%, else Normal.
#[derive(Clone, Copy, Debug, Hash, PartialEq, Eq, PartialOrd, Ord, Default, Structural)]
pub enum RelicExpertConditions {
    #[default]
    Normal,
    Good,
    Centered,
    Pliant,
    Sturdy,
}

/// The expert conditions of the Ishgard Restoration crafts (`EXPERT_CRAFT_2`). Each step
/// is drawn independently: Good 12%, Pliant 12%, Sturdy 15%, Malleable 12%, Primed 12%,
/// else Normal (37%).
#[derive(Clone, Copy, Debug, Hash, PartialEq, Eq, PartialOrd, Ord, Default, Structural)]
pub enum RestoExpertConditions {
    #[default]
    Normal,
    Good,
    Pliant,
    Sturdy,
    Malleable,
    Primed,
}

impl Condition for NoQARegularConditions {
    fn same(self, other: Self) -> (r: bool) {
        self == other
    }

    open spec fn spec_needs_roll(self) -> bool {
        self == NoQARegularConditions::Normal
    }

    fn needs_roll(self) -> (r: bool) {
        matches!(self, NoQARegularConditions::Normal)
    }

    open spec fn spec_quality_modifier(self) -> QualityModifier {
        match self {
            NoQARegularConditions::Normal => QualityModifier::Normal,
            NoQARegularConditions::Good => QualityModifier::Good,
            NoQARegularConditions::Excellent => QualityModifier::Excellent,
            NoQARegularConditions::Poor => QualityModifier::Poor,
        }
    }

    open spec fn spec_progress_modifier(self) -> ProgressModifier {
        ProgressModifier::Normal
    }

    open spec fn spec_success_rate_modifier(self) -> SuccessRateModifier {
        SuccessRateModifier::Normal
    }

    open spec fn spec_durability_modifier(self) -> DurabilityModifier {
        DurabilityModifier::Normal
    }

    open spec fn spec_status_duration_modifier(self) -> StatusDurationModifier {
        StatusDurationModifier::Normal
    }

    open spec fn spec_cp_usage_modifier(self) -> CpUsageModifier {
        CpUsageModifier::Normal
    }

    open spec fn spec_is_good(self) -> bool {
        self == NoQARegularConditions::Good
    }

    open spec fn spec_is_excellent(self) -> bool {
        self == NoQARegularConditions::Excellent
    }

    open spec fn spec_expert() -> bool {
        false
    }

    open spec fn spec_bits() -> u16 {
        NORMAL_CONDITIONS
    }

    open spec fn spec_initial() -> Self {
        NoQARegularConditions::Normal
    }

    open spec fn spec_next(self, roll: int) -> Self {
        match self {
            NoQARegularConditions::Good => NoQARegularConditions::Normal,
            NoQARegularConditions::Poor => NoQARegularConditions::Normal,
            NoQARegularConditions::Excellent => NoQARegularConditions::Poor,
            NoQARegularConditions::Normal => if roll < 20 {
                NoQARegularConditions::Good
            } else if roll < 24 {
                NoQARegularConditions::Excellent
            } else {
                NoQARegularConditions::Normal
            },
        }
    }

    fn to_quality_modifier(self) -> (r: QualityModifier) {
        match self {
            NoQARegularConditions::Normal => QualityModifier::Normal,
            NoQARegularConditions::Good => QualityModifier::Good,
            NoQARegularConditions::Excellent => QualityModifier::Excellent,
            NoQARegularConditions::Poor => QualityModifier::Poor,
        }
    }

    fn to_progress_modifier(self) -> (r: ProgressModifier) {
        ProgressModifier::Normal
    }

    fn to_success_rate_modifier(self) -> (r: SuccessRateModifier) {
        SuccessRateModifier::Normal
    }

    fn to_durability_modifier(self) -> (r: DurabilityModifier) {
        DurabilityModifier::Normal
    }

    fn to_status_duration_modifier(self) -> (r: StatusDurationModifier) {
        StatusDurationModifier::Normal
    }

    fn to_cp_usage_modifier(self) -> (r: CpUsageModifier) {
        CpUsageModifier::Normal
    }

    fn is_good(self) -> (r: bool) {
        matches!(self, NoQARegularConditions::Good)
    }

    fn is_excellent(self) -> (r: bool) {
        matches!(self, NoQARegularConditions::Excellent)
    }

    fn expert() -> (r: bool) {
        false
    }

    fn bits() -> (r: ConditionBits) {
        ConditionBits(NORMAL_CONDITIONS)
    }

    fn initial() -> (r: Self) {
        NoQARegularConditions::Normal
    }

    fn next_from_roll(self, roll: u8) -> (r: Self) {
        match self {
            NoQARegularConditions::Good => NoQARegularConditions::Normal,
            NoQARegularConditions::Poor => NoQARegularConditions::Normal,
            NoQARegularConditions::Excellent => NoQARegularConditions::Poor,
            NoQARegularConditions::Normal => if roll < 20 {
                NoQARegularConditions::Good
            } else if roll < 24 {
                NoQARegularConditions::Excellent
            } else {
                NoQARegularConditions::Normal
            },
        }
    }
}

impl Condition for QARegularConditions {
    fn same(self, other: Self) -> (r: bool) {
        self == other
    }

    open spec fn spec_needs_roll(self) -> bool {
        self == QARegularConditions::Normal
    }

    fn needs_roll(self) -> (r: bool) {
        matches!(self, QARegularConditions::Normal)
    }

    open spec fn spec_quality_modifier(self) -> QualityModifier {
        match self {
            QARegularConditions::Normal => QualityModifier::Normal,
            QARegularConditions::Good => QualityModifier::Good,
            QARegularConditions::Excellent => QualityModifier::Excellent,
            QARegularConditions::Poor => QualityModifier::Poor,
        }
    }

    open spec fn spec_progress_modifier(self) -> ProgressModifier {
        ProgressModifier::Normal
    }

    open spec fn spec_success_rate_modifier(self) -> SuccessRateModifier {
        SuccessRateModifier::Normal
    }

    open spec fn spec_durability_modifier(self) -> DurabilityModifier {
        DurabilityModifier::Normal
    }

    open spec fn spec_status_duration_modifier(self) -> StatusDurationModifier {
        StatusDurationModifier::Normal
    }

    open spec fn spec_cp_usage_modifier(self) -> CpUsageModifier {
        CpUsageModifier::Normal
    }

    open spec fn spec_is_good(self) -> bool {
        self == QARegularConditions::Good
    }

    open spec fn spec_is_excellent(self) -> bool {
        self == QARegularConditions::Excellent
    }

    open spec fn spec_expert() -> bool {
        false
    }

    open spec fn spec_bits() -> u16 {
        NORMAL_CONDITIONS
    }

    open spec fn spec_initial() -> Self {
        QARegularConditions::Normal
    }

    open spec fn spec_next(self, roll: int) -> Self {
        match self {
            QARegularConditions::Good => QARegularConditions::Normal,
            QARegularConditions::Poor => QARegularConditions::Normal,
            QARegularConditions::Excellent => QARegularConditions::Poor,
            QARegularConditions::Normal => if roll < 25 {
                QARegularConditions::Good
            } else if roll < 29 {
                QARegularConditions::Excellent
            } else {
                QARegularConditions::Normal
            },
        }
    }

    fn to_quality_modifier(self) -> (r: QualityModifier) {
        match self {
            QARegularConditions::Normal => QualityModifier::Normal,
            QARegularConditions::Good => QualityModifier::Good,
            QARegularConditions::Excellent => QualityModifier::Excellent,
            QARegularConditions::Poor => QualityModifier::Poor,
        }
    }

    fn to_progress_modifier(self) -> (r: ProgressModifier) {
        ProgressModifier::Normal
    }

    fn to_success_rate_modifier(self) -> (r: SuccessRateModifier) {
        SuccessRateModifier::Normal
    }

    fn to_durability_modifier(self) -> (r: DurabilityModifier) {
        DurabilityModifier::Normal
    }

    fn to_status_duration_modifier(self) -> (r: StatusDurationModifier) {
        StatusDurationModifier::Normal
    }

    fn to_cp_usage_modifier(self) -> (r: CpUsageModifier) {
        CpUsageModifier::Normal
    }

    fn is_good(self) -> (r: bool) {
        matches!(self, QARegularConditions::Good)
    }

    fn is_excellent(self) -> (r: bool) {
        matches!(self, QARegularConditions::Excellent)
    }

    fn expert() -> (r: bool) {
        false
    }

    fn bits() -> (r: ConditionBits) {
        ConditionBits(NORMAL_CONDITIONS)
    }

    fn initial() -> (r: Self) {
        QARegularConditions::Normal
    }

    fn next_from_roll(self, roll: u8) -> (r: Self) {
        match self {
            QARegularConditions::Good => QARegularConditions::Normal,
            QARegularConditions::Poor => QARegularConditions::Normal,
            QARegularConditions::Excellent => QARegularConditions::Poor,
            QARegularConditions::Normal => if roll < 25 {
                QARegularConditions::Good
            } else if roll < 29 {
                QARegularConditions::Excellent
            } else {
                QARegularConditions::Normal
            },
        }
    }
}

impl Condition for RelicExpertConditions {
    fn same(self, other: Self) -> (r: bool) {
        self == other
    }

    open spec fn spec_needs_roll(self) -> bool {
        true
    }

    fn needs_roll(self) -> (r: bool) {
        true
    }

    open spec fn spec_quality_modifier(self) -> QualityModifier {
        if self == RelicExpertConditions::Good {
            QualityModifier::Good
        } else {
            QualityModifier::Normal
        }
    }

    open spec fn spec_progress_modifier(self) -> ProgressModifier {
        ProgressModifier::Normal
    }

    open spec fn spec_success_rate_modifier(self) -> SuccessRateModifier {
        if self == RelicExpertConditions::Centered {
            SuccessRateModifier::Centered
        } else {
            SuccessRateModifier::Normal
        }
    }

    open spec fn spec_durability_modifier(self) -> DurabilityModifier {
        if self == RelicExpertConditions::Sturdy {
            DurabilityModifier::Sturdy
        } else {
            DurabilityModifier::Normal
        }
    }

    open spec fn spec_status_duration_modifier(self) -> StatusDurationModifier {
        StatusDurationModifier::Normal
    }

    open spec fn spec_cp_usage_modifier(self) -> CpUsageModifier {
        if self == RelicExpertConditions::Pliant {
            CpUsageModifier::Pliant
        } else {
            CpUsageModifier::Normal
        }
    }

    open spec fn spec_is_good(self) -> bool {
        self == RelicExpertConditions::Good
    }

    open spec fn spec_is_excellent(self) -> bool {
        false
    }

    open spec fn spec_expert() -> bool {
        true
    }

    open spec fn spec_bits() -> u16 {
        EXPERT_CRAFT_1
    }

    open spec fn spec_initial() -> Self {
        RelicExpertConditions::Normal
    }

    open spec fn spec_next(self, roll: int) -> Self {
        if roll < 12 {
            RelicExpertConditions::Good
        } else if roll < 27 {
            RelicExpertConditions::Centered
        } else if roll < 39 {
            RelicExpertConditions::Pliant
        } else if roll < 54 {
            RelicExpertConditions::Sturdy
        } else {
            RelicExpertConditions::Normal
        }
    }

    fn to_quality_modifier(self) -> (r: QualityModifier) {
        match self {
            RelicExpertConditions::Good => QualityModifier::Good,
            _ => QualityModifier::Normal,
        }
    }

    fn to_progress_modifier(self) -> (r: ProgressModifier) {
        ProgressModifier::Normal
    }

    fn to_success_rate_modifier(self) -> (r: SuccessRateModifier) {
        match self {
            RelicExpertConditions::Centered => SuccessRateModifier::Centered,
            _ => SuccessRateModifier::Normal,
        }
    }

    fn to_durability_modifier(self) -> (r: DurabilityModifier) {
        match self {
            RelicExpertConditions::Sturdy => DurabilityModifier::Sturdy,
            _ => DurabilityModifier::Normal,
        }
    }

    fn to_status_duration_modifier(self) -> (r: StatusDurationModifier) {
        StatusDurationModifier::Normal
    }

    fn to_cp_usage_modifier(self) -> (r: CpUsageModifier) {
        match self {
            RelicExpertConditions::Pliant => CpUsageModifier::Pliant,
            _ => CpUsageModifier::Normal,
        }
    }

    fn is_good(self) -> (r: bool) {
        matches!(self, RelicExpertConditions::Good)
    }

    fn is_excellent(self) -> (r: bool) {
        false
    }

    fn expert() -> (r: bool) {
        true
    }

    fn bits() -> (r: ConditionBits) {
        ConditionBits(EXPERT_CRAFT_1)
    }

    fn initial() -> (r: Self) {
        RelicExpertConditions::Normal
    }

    fn next_from_roll(self, roll: u8) -> (r: Self) {
        if roll < 12 {
            RelicExpertConditions::Good
        } else if roll < 27 {
            RelicExpertConditions::Centered
        } else if roll < 39 {
            RelicExpertConditions::Pliant
        } else if roll < 54 {
            RelicExpertConditions::Sturdy
        } else {
            RelicExpertConditions::Normal
        }
    }
}

impl Condition for RestoExpertConditions {
    fn same(self, other: Self) -> (r: bool) {
        self == other
    }

    open spec fn spec_needs_roll(self) -> bool {
        true
    }

    fn needs_roll(self) -> (r: bool) {
        true
    }

    open spec fn spec_quality_modifier(self) -> QualityModifier {
        if self == RestoExpertConditions::Good {
            QualityModifier::Good
        } else {
            QualityModifier::Normal
        }
    }

    open spec fn spec_progress_modifier(self) -> ProgressModifier {
        if self == RestoExpertConditions::Malleable {
            ProgressModifier::Malleable
        } else {
            ProgressModifier::Normal
        }
    }

    open spec fn spec_success_rate_modifier(self) -> SuccessRateModifier {
        SuccessRateModifier::Normal
    }

    open spec fn spec_durability_modifier(self) -> DurabilityModifier {
        if self == RestoExpertConditions::Sturdy {
            DurabilityModifier::Sturdy
        } else {
            DurabilityModifier::Normal
        }
    }

    open spec fn spec_status_duration_modifier(self) -> StatusDurationModifier {
        if self == RestoExpertConditions::Primed {
            StatusDurationModifier::Primed
        } else {
            StatusDurationModifier::Normal
        }
    }

    open spec fn spec_cp_usage_modifier(self) -> CpUsageModifier {
        if self == RestoExpertConditions::Pliant {
            CpUsageModifier::Pliant
        } else {
            CpUsageModifier::Normal
        }
    }

    open spec fn spec_is_good(self) -> bool {
        self == RestoExpertConditions::Good
    }

    open spec fn spec_is_excellent(self) -> bool {
        false
    }

    open spec fn spec_expert() -> bool {
        true
    }

    open spec fn spec_bits() -> u16 {
        EXPERT_CRAFT_2
    }

    open spec fn spec_initial() -> Self {
        RestoExpertConditions::Normal
    }

    open spec fn spec_next(self, roll: int) -> Self {
        if roll < 12 {
            RestoExpertConditions::Good
        } else if roll < 24 {
            RestoExpertConditions::Pliant
        } else if roll < 39 {
            RestoExpertConditions::Sturdy
        } else if roll < 51 {
            RestoExpertConditions::Malleable
        } else if roll < 63 {
            RestoExpertConditions::Primed
        } else {
            RestoExpertConditions::Normal
        }
    }

    fn to_quality_modifier(self) -> (r: QualityModifier) {
        match self {
            RestoExpertConditions::Good => QualityModifier::Good,
            _ => QualityModifier::Normal,
        }
    }

    fn to_progress_modifier(self) -> (r: ProgressModifier) {
        match self {
            RestoExpertConditions::Malleable => ProgressModifier::Malleable,
            _ => ProgressModifier::Normal,
        }
    }

    fn to_success_rate_modifier(self) -> (r: SuccessRateModifier) {
        SuccessRateModifier::Normal
    }

    fn to_durability_modifier(self) -> (r: DurabilityModifier) {
        match self {
            RestoExpertConditions::Sturdy => DurabilityModifier::Sturdy,
            _ => DurabilityModifier::Normal,
        }
    }

    fn to_status_duration_modifier(self) -> (r: StatusDurationModifier) {
        match self {
            RestoExpertConditions::Primed => StatusDurationModifier::Primed,
            _ => StatusDurationModifier::Normal,
        }
    }

    fn to_cp_usage_modifier(self) -> (r: CpUsageModifier) {
        match self {
            RestoExpertConditions::Pliant => CpUsageModifier::Pliant,
            _ => CpUsageModifier::Normal,
        }
    }

    fn is_good(self) -> (r: bool) {
        matches!(self, RestoExpertConditions::Good)
    }

    fn is_excellent(self) -> (r: bool) {
        false
    }

    fn expert() -> (r: bool) {
        true
    }

    fn bits() -> (r: ConditionBits) {
        ConditionBits(EXPERT_CRAFT_2)
    }

    fn initial() -> (r: Self) {
        RestoExpertConditions::Normal
    }

    fn next_from_roll(self, roll: u8) -> (r: Self) {
        if roll < 12 {
            RestoExpertConditions::Good
        } else if roll < 24 {
            RestoExpertConditions::Pliant
        } else if roll < 39 {
            RestoExpertConditions::Sturdy
        } else if roll < 51 {
            RestoExpertConditions::Malleable
        } else if roll < 63 {
            RestoExpertConditions::Primed
        } else {
            RestoExpertConditions::Normal
        }
    }
}

/// In the regular sets Excellent is always followed by Poor, and Good and Poor by
/// Normal, whatever the roll; only Normal can turn into another condition.
pub proof fn law_regular_transitions(roll: int)
    ensures
        NoQARegularConditions::Excellent.spec_next(roll) == NoQARegularConditions::Poor,
        NoQARegularConditions::Good.spec_next(roll) == NoQARegularConditions::Normal,
        NoQARegularConditions::Poor.spec_next(roll) == NoQARegularConditions::Normal,
        QARegularConditions::Excellent.spec_next(roll) == QARegularConditions::Poor,
        QARegularConditions::Good.spec_next(roll) == QARegularConditions::Normal,
        QARegularConditions::Poor.spec_next(roll) == QARegularConditions::Normal,
        NoQARegularConditions::Normal.spec_next(roll) != NoQARegularConditions::Poor,
        QARegularConditions::Normal.spec_next(roll) != QARegularConditions::Poor,
{
}

/// A craft starts in a condition that modifies nothing.
pub open spec fn neutral<C: Condition>(c: C) -> bool {
    &&& c.spec_quality_modifier() == QualityModifier::Normal
    &&& c.spec_progress_modifier() == ProgressModifier::Normal
    &&& c.spec_success_rate_modifier() == SuccessRateModifier::Normal
    &&& c.spec_durability_modifier() == DurabilityModifier::Normal
    &&& c.spec_status_duration_modifier() == StatusDurationModifier::Normal
    &&& c.spec_cp_usage_modifier() == CpUsageModifier::Normal
    &&& !c.spec_is_good()
    &&& !c.spec_is_excellent()
}

/// What the conditions do, in numbers and by set. Poor halves quality, Good raises it
/// to 150% and Excellent to 400%; Malleable raises progress to 150%; Centered adds 25
/// to the success rate; Sturdy halves durability costs; Primed adds 2 turns to new
/// buffs; Pliant halves CP costs. In each set a condition has one of these effects
/// exactly when it is the condition named for it, and Normal has none.
pub proof fn law_condition_effects()
    ensures
        QualityModifier::Poor.spec_value() == 50,
        QualityModifier::Normal.spec_value() == 100,
        QualityModifier::Good.spec_value() == 150,
        QualityModifier::Excellent.spec_value() == 400,
        ProgressModifier::Malleable.spec_value() == 150,
        ProgressModifier::Normal.spec_value() == 100,
        SuccessRateModifier::Centered.spec_value() == 25,
        SuccessRateModifier::Normal.spec_value() == 0,
        DurabilityModifier::Sturdy.spec_value() == 50,
        DurabilityModifier::Normal.spec_value() == 100,
        StatusDurationModifier::Primed.spec_value() == 2,
        StatusDurationModifier::Normal.spec_value() == 0,
        CpUsageModifier::Pliant.spec_value() == 50,
        CpUsageModifier::Normal.spec_value() == 100,
        neutral(NoQARegularConditions::Normal),
        neutral(QARegularConditions::Normal),
        neutral(RelicExpertConditions::Normal),
        neutral(RestoExpertConditions::Normal),
        forall|c: QARegularConditions|
            (c.spec_quality_modifier() == QualityModifier::Poor) <==> c == QARegularConditions::Poor,
        forall|c: QARegularConditions|
            (c.spec_quality_modifier() == QualityModifier::Good) <==> c == QARegularConditions::Good,
        forall|c: QARegularConditions|
            (c.spec_quality_modifier() == QualityModifier::Excellent) <==> c
                == QARegularConditions::Excellent,
        forall|c: QARegularConditions| c.spec_is_good() <==> c == QARegularConditions::Good,
        forall|c: QARegularConditions| c.spec_is_excellent() <==> c == QARegularConditions::Excellent,
        forall|c: QARegularConditions|
            c.spec_progress_modifier() == ProgressModifier::Normal && c.spec_success_rate_modifier()
                == SuccessRateModifier::Normal && c.spec_durability_modifier()
                == DurabilityModifier::Normal && c.spec_status_duration_modifier()
                == StatusDurationModifier::Normal && c.spec_cp_usage_modifier()
                == CpUsageModifier::Normal,
        forall|c: NoQARegularConditions|
            (c.spec_quality_modifier() == QualityModifier::Poor) <==> c == NoQARegularConditions::Poor,
        forall|c: NoQARegularConditions|
            (c.spec_quality_modifier() == QualityModifier::Good) <==> c == NoQARegularConditions::Good,
        forall|c: NoQARegularConditions|
            (c.spec_quality_modifier() == QualityModifier::Excellent) <==> c
                == NoQARegularConditions::Excellent,
        forall|c: NoQARegularConditions| c.spec_is_good() <==> c == NoQARegularConditions::Good,
        forall|c: NoQARegularConditions|
            c.spec_is_excellent() <==> c == NoQARegularConditions::Excellent,
        forall|c: RelicExpertConditions|
            (c.spec_quality_modifier() == QualityModifier::Good) <==> c == RelicExpertConditions::Good,
        forall|c: RelicExpertConditions|
            c.spec_quality_modifier() == QualityModifier::Good || c.spec_quality_modifier()
                == QualityModifier::Normal,
        forall|c: RelicExpertConditions| c.spec_is_good() <==> c == RelicExpertConditions::Good,
        forall|c: RelicExpertConditions| !c.spec_is_excellent(),
        forall|c: RelicExpertConditions|
            (c.spec_success_rate_modifier() == SuccessRateModifier::Centered) <==> c
                == RelicExpertConditions::Centered,
        forall|c: RelicExpertConditions|
            (c.spec_cp_usage_modifier() == CpUsageModifier::Pliant) <==> c
                == RelicExpertConditions::Pliant,
        forall|c: RelicExpertConditions|
            (c.spec_durability_modifier() == DurabilityModifier::Sturdy) <==> c
                == RelicExpertConditions::Sturdy,
        forall|c: RelicExpertConditions|
            c.spec_progress_modifier() == ProgressModifier::Normal && c.spec_status_duration_modifier()
                == StatusDurationModifier::Normal,
        forall|c: RestoExpertConditions|
            (c.spec_quality_modifier() == QualityModifier::Good) <==> c == RestoExpertConditions::Good,
        forall|c: RestoExpertConditions|
            c.spec_quality_modifier() == QualityModifier::Good || c.spec_quality_modifier()
                == QualityModifier::Normal,
        forall|c: RestoExpertConditions| c.spec_is_good() <==> c == RestoExpertConditions::Good,
        forall|c: RestoExpertConditions| !c.spec_is_excellent(),
        forall|c: RestoExpertConditions|
            (c.spec_cp_usage_modifier() == CpUsageModifier::Pliant) <==> c
                == RestoExpertConditions::Pliant,
        forall|c: RestoExpertConditions|
            (c.spec_durability_modifier() == DurabilityModifier::Sturdy) <==> c
                == RestoExpertConditions::Sturdy,
        forall|c: RestoExpertConditions|
            (c.spec_progress_modifier() == ProgressModifier::Malleable) <==> c
                == RestoExpertConditions::Malleable,
        forall|c: RestoExpertConditions|
            (c.spec_status_duration_modifier() == StatusDurationModifier::Primed) <==> c
                == RestoExpertConditions::Primed,
        forall|c: RestoExpertConditions|
            c.spec_success_rate_modifier() == SuccessRateModifier::Normal,
{
}

/// Every condition set starts in a condition that modifies nothing.
pub proof fn law_initial_conditions_are_neutral()
    ensures
        neutral(NoQARegularConditions::spec_initial()),
        neutral(QARegularConditions::spec_initial()),
        neutral(RelicExpertConditions::spec_initial()),
        neutral(RestoExpertConditions::spec_initial()),
{
}

/// The error returned when a condition bitfield does not match a condition set.
#[derive(Clone, Copy, Debug, Hash, PartialEq, Eq, Structural)]
pub struct ConditionBitsMismatch {
    pub got: ConditionBits,
}

/// Returns the starting condition of `C` if `bits` is exactly `C`'s bitfield, and
/// an error holding `bits` otherwise.
pub fn condition_from_bits<C: Condition>(bits: ConditionBits) -> (r: Result<C, ConditionBitsMismatch>)
    ensures
        bits.0 == C::spec_bits() ==> r == Ok::<C, ConditionBitsMismatch>(C::spec_initial()),
        bits.0 != C::spec_bits() ==> r == Err::<C, ConditionBitsMismatch>(ConditionBitsMismatch { got: bits }),
{
    let expected = C::bits();
    if bits.0 == expected.0 {
        Ok(C::initial())
    } else {
        Err(ConditionBitsMismatch { got: bits })
    }
}

} // verus!

verus! {

/// Draws the condition that follows `current` from the generator. Whatever the
/// generator yields, the result is the transition of `current` for some percentile roll.
/// The generator is only drawn from when the next condition depends on a roll.
pub fn sample<C: Condition>(current: C, rng: &mut rand::rngs::StdRng) -> (r: C)
    ensures
        exists|roll: int| 0 <= roll < 100 && r == current.spec_next(roll),
        !current.spec_needs_roll() ==> r == current.spec_next(0) && *final(rng) == *old(rng),
{
    if current.needs_roll() {
        let roll = crate::rolls::roll_percentile(rng);
        let r = current.next_from_roll(roll);
        assert(0 <= roll as int && (roll as int) < 100 && r == current.spec_next(roll as int));
        r
    } else {
        let r = current.next_from_roll(0);
        assert(r == current.spec_next(0int));
        r
    }
}

/// A condition that needs no roll is followed by the same condition whatever the roll.
pub proof fn law_unrolled_transitions_ignore_the_roll(roll: int)
    ensures
        !NoQARegularConditions::Excellent.spec_needs_roll() && !NoQARegularConditions::Good.spec_needs_roll()
            && !NoQARegularConditions::Poor.spec_needs_roll(),
        !QARegularConditions::Excellent.spec_needs_roll() && !QARegularConditions::Good.spec_needs_roll()
            && !QARegularConditions::Poor.spec_needs_roll(),
        forall|c: QARegularConditions| !c.spec_needs_roll() ==> c.spec_next(roll) == c.spec_next(0),
        forall|c: NoQARegularConditions| !c.spec_needs_roll() ==> c.spec_next(roll) == c.spec_next(0),
{
}

} // verus!
