//! Maps the quality of a finished craft to the chance of a high-quality result, or to
//! the collectability of a collectable.
use vstd::prelude::*;

verus! {

/// The chance, in percent, of a high-quality result for each percentage of the
/// recipe's maximum quality, from 0 to 100 inclusive.
pub const HQ: [u8; 101] = [
    1, 1, 1, 1, 1, 2, 2, 2, 2, 3, 3, 3, 3, 4, 4, 4, 4, 5, 5, 5, 5, 6, 6, 6, 6, 7, 7, 7, 7, 8,
    8, 8, 9, 9, 9, 10, 10, 10, 11, 11, 11, 12, 12, 12, 13, 13, 13, 14, 14, 14, 15, 15, 15, 16,
    16, 17, 17, 17, 18, 18, 18, 19, 19, 20, 20, 21, 22, 23, 24, 26, 28, 31, 34, 38, 42, 47, 52,
    58, 64, 68, 71, 74, 76, 78, 80, 81, 82, 83, 84, 85, 86, 87, 88, 89, 90, 91, 92, 94, 96, 98,
    100,
];

/// The largest maximum quality for which the percentage below can be computed in 32 bits.
pub const MAX_RECIPE_QUALITY: u32 = 21_367_996;

/// The percentage of `recipe_quality` that `quality` reaches, rounded to the nearest
/// integer (halves up) and capped at 100.
pub open spec fn hq_percent(quality: u32, recipe_quality: u32) -> int {
    let raw = (quality * 200 + recipe_quality) / (recipe_quality * 2);
    if raw > 100 {
        100
    } else {
        raw
    }
}

/// The HQ chance for a quality at most the recipe's maximum quality.
pub open spec fn spec_lookup_hq(quality: u32, recipe_quality: u32) -> u8 {
    HQ@[hq_percent(quality, recipe_quality)]
}

/// Looks up the chance of a high-quality result for `quality` out of `recipe_quality`;
/// quality above the maximum gets the chance of the maximum.
pub fn lookup_hq(quality: u32, recipe_quality: u32) -> (r: u8)
    requires
        recipe_quality > 0,
        quality * 200 + recipe_quality <= u32::MAX,
        recipe_quality * 2 <= u32::MAX,
    ensures
        r == spec_lookup_hq(quality, recipe_quality),
{
    let raw_chance = (quality * 200 + recipe_quality) / (recipe_quality * 2);
    let idx: u32 = if raw_chance > 100 {
        100
    } else {
        raw_chance
    };
    HQ[idx as usize]
}

/// The HQ chance never decreases as quality grows.
pub proof fn lemma_hq_table_monotonic(i: int, j: int)
    requires
        0 <= i <= j <= 100,
    ensures
        HQ@[i] <= HQ@[j],
{
    assert(forall|k: int| 0 <= k < 100 ==> #[trigger] HQ@[k] <= HQ@[k + 1]);
    lemma_table_steps(i, j);
}

proof fn lemma_table_steps(i: int, j: int)
    requires
        0 <= i <= j <= 100,
        forall|k: int| 0 <= k < 100 ==> #[trigger] HQ@[k] <= HQ@[k + 1],
    ensures
        HQ@[i] <= HQ@[j],
    decreases j - i,
{
    if i < j {
        lemma_table_steps(i, j - 1);
        assert(HQ@[j - 1] <= HQ@[j]);
    }
}

/// A way of turning the quality of a finished craft into an outcome.
pub trait QualityMap: Copy {
    type Outcome: Sized;

    /// The outcome for `quality` out of `recipe_quality`.
    spec fn spec_convert(quality: u32, recipe_quality: u32) -> Self::Outcome;

    /// The maximum qualities the map accepts.
    spec fn spec_accepts(recipe_quality: u32) -> bool;

    fn convert(quality: u32, recipe_quality: u32) -> (r: Self::Outcome)
        requires
            Self::spec_accepts(recipe_quality),
        ensures
            r == Self::spec_convert(quality, recipe_quality),
    ;
}

/// Maps quality to the chance of a high-quality result.
#[derive(Clone, Copy, Hash, Debug, Default, PartialEq, Eq, Structural)]
pub struct HQMap;

impl QualityMap for HQMap {
    type Outcome = HQChance;

    /// Quality above the maximum counts as the maximum.
    open spec fn spec_convert(quality: u32, recipe_quality: u32) -> HQChance {
        HQChance(
            spec_lookup_hq(
                if quality < recipe_quality { quality } else { recipe_quality },
                recipe_quality,
            ),
        )
    }

    open spec fn spec_accepts(recipe_quality: u32) -> bool {
        0 < recipe_quality <= MAX_RECIPE_QUALITY
    }

    fn convert(quality: u32, recipe_quality: u32) -> (r: HQChance) {
        let q = if quality < recipe_quality {
            quality
        } else {
            recipe_quality
        };
        HQChance(lookup_hq(q, recipe_quality))
    }
}

/// The chance, in percent, of a high-quality result.
#[derive(Clone, Copy, Hash, Debug, PartialEq, Eq, Structural)]
pub struct HQChance(pub u8);

impl HQChance {
    /// The HQ chance that complements an NQ chance.
    pub fn from_nq(other: NQChance) -> (r: HQChance)
        requires
            other.0 <= 100,
        ensures
            r.0 == 100 - other.0,
    {
        HQChance(100 - other.0)
    }
}

impl Default for HQChance {
    /// The lowest chance there is, 1%.
    fn default() -> (r: Self)
        ensures
            r == HQChance(1),
    {
        HQChance(1)
    }
}

/// The chance, in percent, of a normal-quality result.
#[derive(Clone, Copy, Hash, Debug, PartialEq, Eq, Structural)]
pub struct NQChance(pub u8);

impl NQChance {
    /// The NQ chance that complements an HQ chance.
    pub fn from_hq(other: HQChance) -> (r: NQChance)
        requires
            other.0 <= 100,
        ensures
            r.0 == 100 - other.0,
    {
        NQChance(100 - other.0)
    }
}

impl Default for NQChance {
    /// The complement of the lowest HQ chance, 99%.
    fn default() -> (r: Self)
        ensures
            r == NQChance(99),
    {
        NQChance(99)
    }
}

/// Maps quality to the collectability rating of a collectable.
#[derive(Clone, Copy, Hash, Debug, Default, PartialEq, Eq, Structural)]
pub struct CollectabilityMap;

impl QualityMap for CollectabilityMap {
    type Outcome = Collectability;

    /// A tenth of the quality, rounded down, counting quality above the maximum as the
    /// maximum.
    open spec fn spec_convert(quality: u32, recipe_quality: u32) -> Collectability {
        Collectability(
            (if quality < recipe_quality { quality } else { recipe_quality }) / 10,
        )
    }

    open spec fn spec_accepts(recipe_quality: u32) -> bool {
        true
    }

    fn convert(quality: u32, recipe_quality: u32) -> (r: Collectability) {
        let q = if quality < recipe_quality {
            quality
        } else {
            recipe_quality
        };
        Collectability(q / 10)
    }
}

/// The collectability rating of a collectable.
pub struct Collectability(pub u32);

/// The chance of a high-quality result never decreases as quality grows, for a fixed
/// maximum quality.
pub proof fn law_hq_chance_monotonic(q1: u32, q2: u32, recipe_quality: u32)
    requires
        HQMap::spec_accepts(recipe_quality),
        q1 <= q2,
    ensures
        HQMap::spec_convert(q1, recipe_quality).0 <= HQMap::spec_convert(q2, recipe_quality).0,
{
    let a: u32 = if q1 < recipe_quality { q1 } else { recipe_quality };
    let b: u32 = if q2 < recipe_quality { q2 } else { recipe_quality };
    let d = recipe_quality * 2;
    assert((a * 200 + recipe_quality) / d <= (b * 200 + recipe_quality) / d) by (nonlinear_arith)
        requires
            a <= b,
            d > 0,
    ;
    lemma_hq_table_monotonic(hq_percent(a, recipe_quality), hq_percent(b, recipe_quality));
}

/// Reaching the recipe's maximum quality guarantees a high-quality result.
pub proof fn law_max_quality_is_certain(quality: u32, recipe_quality: u32)
    requires
        HQMap::spec_accepts(recipe_quality),
        quality >= recipe_quality,
    ensures
        HQMap::spec_convert(quality, recipe_quality).0 == 100,
{
    let d = recipe_quality * 2;
    assert((recipe_quality * 200 + recipe_quality) / d >= 100) by (nonlinear_arith)
        requires
            d == recipe_quality * 2,
            recipe_quality > 0,
    ;
}

} // verus!
