//! Crafting recipes and the recipe level (RLvl) table they are built from.
use crate::conditions::{
    Condition, ConditionBits, ALL_EXPERT_CONDITIONS_UNUSED, EXPERT_CRAFT_1, EXPERT_CRAFT_2,
    NORMAL_CONDITIONS,
};
use vstd::prelude::*;
use vstd::string::StringExecFns;

verus! {

/// One row of the recipe level table.
#[derive(Clone, Copy, Hash, PartialEq, Eq, Debug, Structural)]
pub struct RLvlRow {
    pub class_level: u8,
    pub stars: u8,
    pub progress_divider: u16,
    pub quality_divider: u16,
    pub progress_modifier: u16,
    pub quality_modifier: u16,
    pub conditions: u16,
    pub base_progress: u16,
    pub base_quality: u32,
    pub base_durability: u16,
}

/// The recipe level table: a row for every level from [`RLvl::MIN_RLVL`] to
/// [`RLvl::MAX_RLVL`]. The table this library carries holds the level of the Classical
/// gear of patch 6.1 (580), a level 90 recipe with the regular conditions.
pub open spec fn rlvl_table(rlvl: u16) -> Option<RLvlRow> {
    if RLvl::MIN_RLVL <= rlvl <= RLvl::MAX_RLVL {
        Some(
            RLvlRow {
                class_level: 90,
                stars: 1,
                progress_divider: 130,
                quality_divider: 130,
                progress_modifier: 80,
                quality_modifier: 80,
                conditions: NORMAL_CONDITIONS,
                base_progress: 3900,
                base_quality: 7800,
                base_durability: 70,
            },
        )
    } else {
        None
    }
}

/// A recipe level, the key into the recipe level table.
#[derive(Clone, Copy, Hash, PartialEq, Eq, Debug, Structural)]
pub struct RLvl(pub u16);

impl RLvl {
    /// The lowest level the recipe level table has a row for.
    pub const MIN_RLVL: u16 = 580;

    /// The highest level the recipe level table has a row for (bounds are checked with
    /// `<=`).
    pub const MAX_RLVL: u16 = 580;

    /// Whether the table has a row for this level: whether it lies between
    /// [`RLvl::MIN_RLVL`] and [`RLvl::MAX_RLVL`].
    pub open spec fn spec_in_bounds(self) -> bool {
        Self::MIN_RLVL <= self.0 <= Self::MAX_RLVL
    }

    pub open spec fn spec_row(self) -> RLvlRow {
        rlvl_table(self.0)->Some_0
    }

    /// The row of this level, if the table has one.
    pub fn row(self) -> (r: Option<RLvlRow>)
        ensures
            r == rlvl_table(self.0),
            r is Some <==> self.spec_in_bounds(),
    {
        if Self::MIN_RLVL <= self.0 && self.0 <= Self::MAX_RLVL {
            Some(
                RLvlRow {
                    class_level: 90,
                    stars: 1,
                    progress_divider: 130,
                    quality_divider: 130,
                    progress_modifier: 80,
                    quality_modifier: 80,
                    conditions: NORMAL_CONDITIONS,
                    base_progress: 3900,
                    base_quality: 7800,
                    base_durability: 70,
                },
            )
        } else {
            None
        }
    }

    /// Whether the level lies in the allowed range, from [`RLvl::MIN_RLVL`] to
    /// [`RLvl::MAX_RLVL`]: whether the table has a row for it.
    pub fn verify_bounds(self) -> (r: bool)
        ensures
            r == (Self::MIN_RLVL <= self.0 && self.0 <= Self::MAX_RLVL),
            r == self.spec_in_bounds(),
    {
        Self::MIN_RLVL <= self.0 && self.0 <= Self::MAX_RLVL
    }

    /// The class level a crafter needs for recipes of this level.
    pub fn character_level(self) -> (r: u8)
        requires
            self.spec_in_bounds(),
        ensures
            r == self.spec_row().class_level,
    {
        self.row().unwrap().class_level
    }

    /// The divider applied to craftsmanship when computing base progress.
    pub fn progress_divider(self) -> (r: u16)
        requires
            self.spec_in_bounds(),
        ensures
            r == self.spec_row().progress_divider,
    {
        self.row().unwrap().progress_divider
    }

    /// The divider applied to control when computing base quality.
    pub fn quality_divider(self) -> (r: u16)
        requires
            self.spec_in_bounds(),
        ensures
            r == self.spec_row().quality_divider,
    {
        self.row().unwrap().quality_divider
    }

    /// The percentage applied to base progress when the crafter is not above the level.
    pub fn progress_modifier(self) -> (r: u16)
        requires
            self.spec_in_bounds(),
        ensures
            r == self.spec_row().progress_modifier,
    {
        self.row().unwrap().progress_modifier
    }

    /// The percentage applied to base quality when the crafter is not above the level.
    pub fn quality_modifier(self) -> (r: u16)
        requires
            self.spec_in_bounds(),
        ensures
            r == self.spec_row().quality_modifier,
    {
        self.row().unwrap().quality_modifier
    }

    /// The set of conditions recipes of this level use.
    pub fn condition_bits(self) -> (r: ConditionBits)
        requires
            self.spec_in_bounds(),
        ensures
            r.0 == self.spec_row().conditions,
    {
        ConditionBits(self.row().unwrap().conditions)
    }

    /// The maximum quality before the recipe's own modifier.
    pub fn base_quality(self) -> (r: u32)
        requires
            self.spec_in_bounds(),
        ensures
            r == self.spec_row().base_quality,
    {
        self.row().unwrap().base_quality
    }

    /// The progress needed before the recipe's own modifier.
    pub fn base_progress(self) -> (r: u16)
        requires
            self.spec_in_bounds(),
        ensures
            r == self.spec_row().base_progress,
    {
        self.row().unwrap().base_progress
    }

    /// The durability before the recipe's own modifier.
    pub fn base_durability(self) -> (r: u16)
        requires
            self.spec_in_bounds(),
        ensures
            r == self.spec_row().base_durability,
    {
        self.row().unwrap().base_durability
    }
}

/// A crafting recipe: its level, the numbers derived from the level table, and the
/// condition a craft of it starts in.
#[derive(Clone, Copy, Hash, PartialEq, Eq, Debug)]
pub struct Recipe<C: Condition> {
    pub rlvl: RLvl,
    pub required_character_level: u8,
    pub stars: u8,
    pub max_quality: u32,
    pub max_progress: u32,
    pub max_durability: i8,
    pub progress_divider: u16,
    pub quality_divider: u16,
    pub progress_modifier: u16,
    pub quality_modifier: u16,
    pub initial_condition: C,
}

impl<C: Condition> Recipe<C> {
    /// A recipe a craft can be run on: positive dividers, progress and durability. The
    /// dividers come from the recipe level table, whose rows all have positive ones; the
    /// base progress and quality divide by them.
    pub open spec fn wf(&self) -> bool {
        &&& self.progress_divider > 0
        &&& self.quality_divider > 0
        &&& self.max_progress > 0
        &&& self.max_durability > 0
    }

    /// The percentage `modifier` of `base`, rounded down.
    pub open spec fn scaled(base: int, modifier: u16) -> int {
        base * modifier / 100
    }

    /// The percentage `modifier` of `base`, rounded to the nearest integer (halves up).
    pub open spec fn scaled_rounded(base: int, modifier: u16) -> int {
        (base * modifier + 50) / 100
    }

    /// The recipe that `try_from_rlvl_modifiers` builds from a row.
    pub open spec fn spec_from_row(
        rlvl: RLvl,
        row: RLvlRow,
        quality_mod: u16,
        progress_mod: u16,
        durability_mod: u16,
    ) -> Self {
        Recipe {
            rlvl,
            required_character_level: row.class_level,
            stars: row.stars,
            max_quality: Self::scaled(row.base_quality as int, quality_mod) as u32,
            max_progress: Self::scaled(row.base_progress as int, progress_mod) as u32,
            max_durability: Self::scaled_rounded(row.base_durability as int, durability_mod) as i8,
            progress_divider: row.progress_divider,
            quality_divider: row.quality_divider,
            progress_modifier: row.progress_modifier,
            quality_modifier: row.quality_modifier,
            initial_condition: C::spec_initial(),
        }
    }

    /// Builds a recipe from its level and the percentages that the recipe applies to
    /// the level's quality and progress (rounded down) and durability (rounded to the
    /// nearest, so 58% of 60 is 35). Fails
    /// if the table has no row for the level, or if the level's conditions are not
    /// those of `C`.
    pub fn try_from_rlvl_modifiers(
        rlvl: RLvl,
        quality_mod: u16,
        progress_mod: u16,
        durability_mod: u16,
    ) -> (r: Result<Self, RecipeError<C>>)
        requires
            rlvl.spec_in_bounds() ==> Self::scaled_rounded(
                rlvl.spec_row().base_durability as int,
                durability_mod,
            ) <= i8::MAX,
        ensures
            !rlvl.spec_in_bounds() ==> r == Err::<Self, RecipeError<C>>(
                RecipeError::RLvlOutOfBounds(rlvl),
            ),
            rlvl.spec_in_bounds() && rlvl.spec_row().conditions != C::spec_bits() ==> r == Err::<
                Self,
                RecipeError<C>,
            >(
                RecipeError::InvalidCondition {
                    got: C::spec_initial(),
                    expected: ConditionBits(rlvl.spec_row().conditions),
                },
            ),
            rlvl.spec_in_bounds() && rlvl.spec_row().conditions == C::spec_bits() ==> r == Ok::<
                Self,
                RecipeError<C>,
            >(Self::spec_from_row(rlvl, rlvl.spec_row(), quality_mod, progress_mod, durability_mod)),
    {
        let row = match rlvl.row() {
            Some(row) => row,
            None => {
                return Err(RecipeError::RLvlOutOfBounds(rlvl));
            },
        };
        let expected = C::bits();
        if row.conditions != expected.0 {
            return Err(
                RecipeError::InvalidCondition {
                    got: C::initial(),
                    expected: ConditionBits(row.conditions),
                },
            );
        }
        assert(row.base_quality <= 7800 && row.base_progress <= 3900 && row.base_durability <= 70);
        assert((row.base_quality as u64) * (quality_mod as u64) <= 7800 * 65535) by (nonlinear_arith)
            requires
                row.base_quality <= 7800,
        ;
        assert((row.base_progress as u64) * (progress_mod as u64) <= 3900 * 65535) by (nonlinear_arith)
            requires
                row.base_progress <= 3900,
        ;
        assert((row.base_durability as u64) * (durability_mod as u64) <= 70 * 65535) by (nonlinear_arith)
            requires
                row.base_durability <= 70,
        ;
        let max_quality = (row.base_quality as u64) * (quality_mod as u64) / 100;
        let max_progress = (row.base_progress as u64) * (progress_mod as u64) / 100;
        let max_durability = ((row.base_durability as u64) * (durability_mod as u64) + 50) / 100;
        Ok(
            Recipe {
                rlvl,
                required_character_level: row.class_level,
                stars: row.stars,
                max_quality: max_quality as u32,
                max_progress: max_progress as u32,
                max_durability: max_durability as i8,
                progress_divider: row.progress_divider,
                quality_divider: row.quality_divider,
                progress_modifier: row.progress_modifier,
                quality_modifier: row.quality_modifier,
                initial_condition: C::initial(),
            },
        )
    }
}

/// Whether `bits` is one of the condition sets that recipe levels use.
pub open spec fn known_condition_bits(bits: ConditionBits) -> bool {
    bits.0 == NORMAL_CONDITIONS || bits.0 == EXPERT_CRAFT_1 || bits.0 == EXPERT_CRAFT_2 || bits.0
        == ALL_EXPERT_CONDITIONS_UNUSED
}

/// Whether `bits` is one of the condition sets that recipe levels use.
pub fn is_known_condition_bits(bits: ConditionBits) -> (r: bool)
    ensures
        r == known_condition_bits(bits),
{
    bits.0 == NORMAL_CONDITIONS || bits.0 == EXPERT_CRAFT_1 || bits.0 == EXPERT_CRAFT_2 || bits.0
        == ALL_EXPERT_CONDITIONS_UNUSED
}

/// The description of a set of conditions, naming the condition type to use for it.
pub open spec fn condition_error_text(bits: ConditionBits) -> Seq<char> {
    if bits.0 == NORMAL_CONDITIONS {
        "the standard set of conditions (normal/good/poor/excellent); use NoQARegularConditions or QARegularConditions"@
    } else if bits.0 == EXPERT_CRAFT_1 {
        "the Shadowbringers crafting relic expert conditions;\n        use RelicExpertConditions"@
    } else if bits.0 == EXPERT_CRAFT_2 {
        "the non-relic Ishgard Restoration expert conditions;\n        use RestoExpertConditions"@
    } else {
        "an unused set of conditions; this isn't actually an in-use RLVL and no; condition is implemented that uses it. If you want to implement it yourself, if consists of all existing conditions EXCEPT excellent/poor"@
    }
}

/// Describes a set of conditions and the condition type to use for it.
pub fn bits_to_condition_error_msg(bits: ConditionBits) -> (r: &'static str)
    requires
        known_condition_bits(bits),
    ensures
        r@ == condition_error_text(bits),
{
    if bits.0 == NORMAL_CONDITIONS {
        "the standard set of conditions (normal/good/poor/excellent); use NoQARegularConditions or QARegularConditions"
    } else if bits.0 == EXPERT_CRAFT_1 {
        "the Shadowbringers crafting relic expert conditions;\n        use RelicExpertConditions"
    } else if bits.0 == EXPERT_CRAFT_2 {
        "the non-relic Ishgard Restoration expert conditions;\n        use RestoExpertConditions"
    } else {
        "an unused set of conditions; this isn't actually an in-use RLVL and no; condition is implemented that uses it. If you want to implement it yourself, if consists of all existing conditions EXCEPT excellent/poor"
    }
}

/// Why a recipe could not be built.
#[derive(Copy, Clone, Debug, Hash, PartialEq, Eq)]
pub enum RecipeError<C: Condition> {
    /// The recipe level table has no row for the level.
    RLvlOutOfBounds(RLvl),
    /// The level's conditions are not those of the condition type.
    InvalidCondition { got: C, expected: ConditionBits },
}

/// The decimal digit for `d`, from 0 to 9.
pub open spec fn digit_char(d: int) -> char {
    if d == 0 {
        '0'
    } else if d == 1 {
        '1'
    } else if d == 2 {
        '2'
    } else if d == 3 {
        '3'
    } else if d == 4 {
        '4'
    } else if d == 5 {
        '5'
    } else if d == 6 {
        '6'
    } else if d == 7 {
        '7'
    } else if d == 8 {
        '8'
    } else {
        '9'
    }
}

/// `n` written in decimal, without leading zeros.
pub open spec fn decimal(n: nat) -> Seq<char>
    decreases n,
{
    if n < 10 {
        seq![digit_char(n as int)]
    } else {
        decimal(n / 10) + seq![digit_char((n % 10) as int)]
    }
}

/// Appends the digit `d` (from 0 to 9) to `text`.
fn append_digit(text: &mut String, d: u16)
    requires
        d < 10,
    ensures
        final(text)@ == old(text)@ + seq![digit_char(d as int)],
{
    let digit = if d == 0 {
        "0"
    } else if d == 1 {
        "1"
    } else if d == 2 {
        "2"
    } else if d == 3 {
        "3"
    } else if d == 4 {
        "4"
    } else if d == 5 {
        "5"
    } else if d == 6 {
        "6"
    } else if d == 7 {
        "7"
    } else if d == 8 {
        "8"
    } else {
        "9"
    };
    proof {
        reveal_strlit("0");
        reveal_strlit("1");
        reveal_strlit("2");
        reveal_strlit("3");
        reveal_strlit("4");
        reveal_strlit("5");
        reveal_strlit("6");
        reveal_strlit("7");
        reveal_strlit("8");
        reveal_strlit("9");
    }
    assert(digit@ =~= seq![digit_char(d as int)]);
    text.append(digit);
}

/// Appends `n` in decimal to `text`.
pub fn append_decimal(text: &mut String, n: u16)
    ensures
        final(text)@ == old(text)@ + decimal(n as nat),
    decreases n,
{
    if n >= 10 {
        append_decimal(text, n / 10);
        append_digit(text, n % 10);
        assert(final(text)@ =~= old(text)@ + decimal(n as nat));
    } else {
        append_digit(text, n);
        assert(final(text)@ =~= old(text)@ + decimal(n as nat));
    }
}

/// The message for a level outside the table: the allowed bounds and the level given.
pub open spec fn out_of_bounds_text(got: u16) -> Seq<char> {
    "The given RLvl was out of the allowed bounds; expected "@ + decimal(RLvl::MIN_RLVL as nat)
        + " <= rlvl <= "@ + decimal(RLvl::MAX_RLVL as nat) + " but got the value "@ + decimal(
        got as nat,
    )
}

/// The message for a level outside the table: the allowed bounds and the level given.
pub fn out_of_bounds_message(got: u16) -> (r: String)
    ensures
        r@ == out_of_bounds_text(got),
{
    let mut text = String::from_str("The given RLvl was out of the allowed bounds; expected ");
    append_decimal(&mut text, RLvl::MIN_RLVL);
    text.append(" <= rlvl <= ");
    append_decimal(&mut text, RLvl::MAX_RLVL);
    text.append(" but got the value ");
    append_decimal(&mut text, got);
    text
}

impl<C: Condition> RecipeError<C> {
    /// What went wrong: for a level out of bounds, the allowed bounds and the level
    /// given; for the wrong condition type, the description of the conditions the level
    /// uses.
    pub fn message(&self) -> (r: String)
        requires
            *self is InvalidCondition ==> known_condition_bits(self->expected),
        ensures
            *self matches RecipeError::RLvlOutOfBounds(level) ==> r@ == out_of_bounds_text(level.0),
            *self is InvalidCondition ==> r@ == condition_error_text(self->expected),
    {
        match self {
            RecipeError::RLvlOutOfBounds(rlvl) => out_of_bounds_message(rlvl.0),
            RecipeError::InvalidCondition { expected, .. } => String::from_str(
                bits_to_condition_error_msg(*expected),
            ),
        }
    }
}

} // verus!
