//! Tables indexed by the canonical recipe level ranges of the game's expansions: the
//! recipe level and the stats each range expects, and the conditions its recipes use.
use crate::conditions::{ConditionBits, EXPERT_CRAFT_1, EXPERT_CRAFT_2, NORMAL_CONDITIONS};
use vstd::prelude::*;

verus! {

/// The number of canonical recipe level ranges.
pub const NUM_RANGES: usize = 101;

/// The recipe level of each canonical range.
pub const RLVL: [u16; 101] = [
    1, 2, 3, 4, 5, 6, 7, 8, 9, 10, 11, 12, 13, 14,
    15, 16, 17, 18, 19, 20, 21, 22, 23, 24, 25, 26, 27, 28,
    29, 30, 31, 32, 33, 34, 35, 36, 37, 38, 39, 40, 41, 42,
    43, 44, 45, 46, 47, 48, 49, 50, 55, 70, 90, 110, 115, 125,
    130, 133, 136, 139, 142, 145, 148, 150, 160, 180, 210, 220, 250, 255,
    265, 270, 273, 276, 279, 282, 285, 288, 290, 300, 320, 350, 380, 390,
    395, 400, 403, 406, 409, 412, 415, 418, 430, 440, 450, 480, 481, 490,
    511, 512, 513,
];

/// The craftsmanship each range expects.
pub const RLVL_CRAFTSMANSHIP: [u16; 101] = [
    22, 22, 22, 22, 50, 50, 50, 59, 59, 59, 67, 67, 67, 67,
    67, 78, 78, 78, 82, 94, 94, 94, 99, 99, 99, 99, 99, 106,
    106, 106, 121, 121, 121, 129, 129, 129, 129, 129, 136, 136, 136, 150,
    150, 150, 150, 150, 161, 161, 161, 176, 325, 325, 391, 451, 468, 502,
    519, 529, 539, 550, 560, 570, 580, 587, 620, 718, 850, 870, 995, 1006,
    1027, 1037, 1044, 1050, 1056, 1063, 1069, 1075, 1079, 1100, 1320, 1500, 1650, 1320,
    1388, 1457, 1498, 1539, 1580, 1621, 1662, 1702, 1866, 2000, 2140, 2480, 2484, 2520,
    2620, 2620, 2620,
];

/// The control each range expects.
pub const RLVL_CONTROL: [u16; 101] = [
    11, 11, 11, 11, 25, 25, 25, 29, 29, 29, 33, 33, 33, 33,
    33, 39, 39, 39, 41, 47, 47, 47, 49, 49, 49, 49, 49, 53,
    53, 53, 60, 60, 60, 64, 64, 64, 64, 64, 68, 68, 68, 75,
    75, 75, 75, 75, 80, 80, 80, 88, 325, 325, 374, 407, 426, 462,
    480, 491, 502, 513, 524, 535, 546, 553, 589, 695, 820, 835, 955, 968,
    993, 1005, 1013, 1020, 1028, 1035, 1043, 1050, 1055, 1080, 1220, 1350, 1600, 1220,
    1284, 1348, 1387, 1425, 1464, 1502, 1541, 1579, 1733, 1860, 1990, 2195, 2206, 2305,
    2540, 2540, 2540,
];

/// The progress each range's recipes need.
pub const RLVL_PROGRESS: [u32; 101] = [
    19, 20, 20, 21, 33, 36, 37, 41, 42, 45, 48, 53, 54, 54,
    55, 63, 66, 67, 68, 74, 75, 75, 79, 85, 89, 90, 91, 100,
    101, 102, 106, 110, 111, 115, 123, 124, 128, 129, 137, 138, 143, 144,
    155, 156, 158, 159, 167, 172, 174, 186, 195, 233, 445, 586, 339, 503,
    586, 641, 697, 752, 808, 863, 919, 956, 982, 1033, 1106, 1234, 1476, 1116,
    1263, 1476, 1586, 1697, 1808, 1919, 2029, 2140, 2214, 2361, 2657, 2760, 2900, 3149,
    3248, 3348, 3407, 3467, 3526, 3586, 3645, 3705, 3943, 4143, 4343, 4943, 4963, 5143,
    5563, 5583, 5603,
];

/// The quality each range's recipes reach.
pub const RLVL_QUALITY: [u32; 101] = [
    312, 325, 339, 352, 451, 474, 492, 526, 545, 629, 665, 702, 726, 751,
    807, 866, 898, 939, 982, 1053, 1090, 1122, 1169, 1239, 1296, 1332, 1368, 1498,
    1544, 1584, 1670, 1697, 1757, 1811, 1853, 1882, 1905, 1961, 2026, 2050, 2109, 2147,
    2251, 2277, 2309, 2372, 2421, 2524, 2551, 2641, 2646, 2921, 4980, 5783, 3951, 5172,
    5783, 6042, 6301, 6561, 6820, 7080, 7339, 7851, 7874, 8015, 8298, 8742, 9230, 8377,
    8581, 9186, 9657, 10023, 10389, 10755, 11121, 11490, 11736, 11960, 12511, 13144, 14267, 13086,
    13660, 14062, 14482, 14902, 15322, 15742, 16162, 16582, 18262, 19662, 23395, 25863, 25945, 26686,
    28414, 28496, 28578,
];

/// The durability of each range's recipes.
pub const RLVL_DURABILITY: [u8; 101] = [
    60, 60, 60, 60, 60, 60, 60, 60, 60, 60, 60, 60, 60, 60,
    70, 70, 70, 70, 70, 70, 70, 70, 70, 70, 70, 70, 70, 70,
    70, 70, 80, 80, 80, 80, 80, 80, 80, 80, 80, 80, 80, 80,
    80, 80, 80, 80, 80, 80, 80, 80, 80, 80, 80, 80, 80, 80,
    80, 80, 70, 70, 70, 70, 70, 70, 70, 70, 70, 70, 70, 80,
    80, 80, 80, 80, 80, 80, 80, 80, 80, 70, 70, 70, 70, 80,
    80, 80, 80, 80, 80, 80, 80, 80, 80, 70, 70, 70, 70, 70,
    70, 70, 70,
];

/// The conditions of each range's recipes.
pub const RLVL_CONDITIONS: [u16; 101] = [
    NORMAL_CONDITIONS, NORMAL_CONDITIONS, NORMAL_CONDITIONS,
    NORMAL_CONDITIONS, NORMAL_CONDITIONS, NORMAL_CONDITIONS,
    NORMAL_CONDITIONS, NORMAL_CONDITIONS, NORMAL_CONDITIONS,
    NORMAL_CONDITIONS, NORMAL_CONDITIONS, NORMAL_CONDITIONS,
    NORMAL_CONDITIONS, NORMAL_CONDITIONS, NORMAL_CONDITIONS,
    NORMAL_CONDITIONS, NORMAL_CONDITIONS, NORMAL_CONDITIONS,
    NORMAL_CONDITIONS, NORMAL_CONDITIONS, NORMAL_CONDITIONS,
    NORMAL_CONDITIONS, NORMAL_CONDITIONS, NORMAL_CONDITIONS,
    NORMAL_CONDITIONS, NORMAL_CONDITIONS, NORMAL_CONDITIONS,
    NORMAL_CONDITIONS, NORMAL_CONDITIONS, NORMAL_CONDITIONS,
    NORMAL_CONDITIONS, NORMAL_CONDITIONS, NORMAL_CONDITIONS,
    NORMAL_CONDITIONS, NORMAL_CONDITIONS, NORMAL_CONDITIONS,
    NORMAL_CONDITIONS, NORMAL_CONDITIONS, NORMAL_CONDITIONS,
    NORMAL_CONDITIONS, NORMAL_CONDITIONS, NORMAL_CONDITIONS,
    NORMAL_CONDITIONS, NORMAL_CONDITIONS, NORMAL_CONDITIONS,
    NORMAL_CONDITIONS, NORMAL_CONDITIONS, NORMAL_CONDITIONS,
    NORMAL_CONDITIONS, NORMAL_CONDITIONS, NORMAL_CONDITIONS,
    NORMAL_CONDITIONS, NORMAL_CONDITIONS, NORMAL_CONDITIONS,
    NORMAL_CONDITIONS, NORMAL_CONDITIONS, NORMAL_CONDITIONS,
    NORMAL_CONDITIONS, NORMAL_CONDITIONS, NORMAL_CONDITIONS,
    NORMAL_CONDITIONS, NORMAL_CONDITIONS, NORMAL_CONDITIONS,
    NORMAL_CONDITIONS, NORMAL_CONDITIONS, NORMAL_CONDITIONS,
    NORMAL_CONDITIONS, NORMAL_CONDITIONS, NORMAL_CONDITIONS,
    NORMAL_CONDITIONS, NORMAL_CONDITIONS, NORMAL_CONDITIONS,
    NORMAL_CONDITIONS, NORMAL_CONDITIONS, NORMAL_CONDITIONS,
    NORMAL_CONDITIONS, NORMAL_CONDITIONS, NORMAL_CONDITIONS,
    NORMAL_CONDITIONS, NORMAL_CONDITIONS, NORMAL_CONDITIONS,
    NORMAL_CONDITIONS, NORMAL_CONDITIONS, NORMAL_CONDITIONS,
    NORMAL_CONDITIONS, NORMAL_CONDITIONS, NORMAL_CONDITIONS,
    NORMAL_CONDITIONS, NORMAL_CONDITIONS, NORMAL_CONDITIONS,
    NORMAL_CONDITIONS, NORMAL_CONDITIONS, NORMAL_CONDITIONS,
    NORMAL_CONDITIONS, NORMAL_CONDITIONS, NORMAL_CONDITIONS,
    EXPERT_CRAFT_1, NORMAL_CONDITIONS, EXPERT_CRAFT_1,
    EXPERT_CRAFT_1, EXPERT_CRAFT_2,
];

/// The ranges of recipe levels: a level while levelling through an expansion, or the
/// star rating of a recipe at an expansion's maximum level.
#[derive(Clone, Copy, Debug, Hash, PartialEq, Eq, Structural)]
pub enum RecipeLevelRanges {
    ArrLeveling(u8),
    ArrMax(Stars),
    HwLeveling(u8),
    HwMax(Stars),
    StbLeveling(u8),
    StbMax(Stars),
    ShbLeveling(u8),
    ShbMax(ShbStars),
}

/// The stars of a recipe at the maximum level of A Realm Reborn, Heavensward or
/// Stormblood.
#[derive(Clone, Copy, Debug, Hash, PartialEq, Eq, Structural)]
pub enum Stars {
    Zero,
    One,
    Two,
    Three,
    Four,
}

impl Stars {
    pub open spec fn spec_value(self) -> u8 {
        match self {
            Stars::Zero => 0,
            Stars::One => 1,
            Stars::Two => 2,
            Stars::Three => 3,
            Stars::Four => 4,
        }
    }

    /// The number of stars, 0 to 4.
    pub fn value(self) -> (r: u8)
        ensures
            r == self.spec_value(),
    {
        match self {
            Stars::Zero => 0,
            Stars::One => 1,
            Stars::Two => 2,
            Stars::Three => 3,
            Stars::Four => 4,
        }
    }
}

/// The stars of a recipe at the maximum level of Shadowbringers, gold ones included.
#[derive(Clone, Copy, Debug, Hash, PartialEq, Eq, Structural)]
pub enum ShbStars {
    Zero,
    One,
    Two,
    Three,
    ThreeGold,
    Four,
    FourGold,
    FourGold2,
    FourGold3,
}

impl ShbStars {
    pub open spec fn spec_value(self) -> u8 {
        match self {
            ShbStars::Zero => 0,
            ShbStars::One => 1,
            ShbStars::Two => 2,
            ShbStars::Three => 3,
            ShbStars::ThreeGold => 4,
            ShbStars::Four => 5,
            ShbStars::FourGold => 6,
            ShbStars::FourGold2 => 7,
            ShbStars::FourGold3 => 8,
        }
    }

    /// The position of the rating among Shadowbringers' ratings, 0 to 8.
    pub fn value(self) -> (r: u8)
        ensures
            r == self.spec_value(),
    {
        match self {
            ShbStars::Zero => 0,
            ShbStars::One => 1,
            ShbStars::Two => 2,
            ShbStars::Three => 3,
            ShbStars::ThreeGold => 4,
            ShbStars::Four => 5,
            ShbStars::FourGold => 6,
            ShbStars::FourGold2 => 7,
            ShbStars::FourGold3 => 8,
        }
    }
}

/// The index of a levelling range: the level, plus four for each full ten levels
/// above 40 (the star ratings of the maximum levels come in between).
pub open spec fn leveling_idx(lvl: u8) -> int {
    lvl + (lvl - 40) / 10 * 4
}

impl RecipeLevelRanges {
    /// The ranges that have an index: levelling ranges from level 40 whose index falls
    /// within the tables.
    pub open spec fn spec_valid(self) -> bool {
        match self {
            RecipeLevelRanges::ArrLeveling(lvl) => 40 <= lvl && leveling_idx(lvl) < NUM_RANGES,
            RecipeLevelRanges::HwLeveling(lvl) => 40 <= lvl && leveling_idx(lvl) < NUM_RANGES,
            RecipeLevelRanges::StbLeveling(lvl) => 40 <= lvl && leveling_idx(lvl) < NUM_RANGES,
            RecipeLevelRanges::ShbLeveling(lvl) => 40 <= lvl && leveling_idx(lvl) < NUM_RANGES,
            _ => true,
        }
    }

    pub open spec fn spec_canonical_idx(self) -> int {
        match self {
            RecipeLevelRanges::ArrLeveling(lvl) => leveling_idx(lvl),
            RecipeLevelRanges::HwLeveling(lvl) => leveling_idx(lvl),
            RecipeLevelRanges::StbLeveling(lvl) => leveling_idx(lvl),
            RecipeLevelRanges::ShbLeveling(lvl) => leveling_idx(lvl),
            RecipeLevelRanges::ArrMax(stars) => 50 + stars.spec_value(),
            RecipeLevelRanges::HwMax(stars) => 60 + stars.spec_value(),
            RecipeLevelRanges::StbMax(stars) => 70 + stars.spec_value(),
            RecipeLevelRanges::ShbMax(stars) => 80 + stars.spec_value(),
        }
    }

    /// The index of the range in the tables.
    pub fn to_canonical_idx(self) -> (r: usize)
        requires
            self.spec_valid(),
        ensures
            r == self.spec_canonical_idx(),
            r < NUM_RANGES,
    {
        match self {
            RecipeLevelRanges::ArrLeveling(lvl) | RecipeLevelRanges::HwLeveling(lvl)
            | RecipeLevelRanges::StbLeveling(lvl) | RecipeLevelRanges::ShbLeveling(lvl) => {
                let modifier = (lvl - 40) / 10;
                (lvl + modifier * 4) as usize
            },
            RecipeLevelRanges::ArrMax(stars) => (50 + stars.value()) as usize,
            RecipeLevelRanges::HwMax(stars) => (60 + stars.value()) as usize,
            RecipeLevelRanges::StbMax(stars) => (70 + stars.value()) as usize,
            RecipeLevelRanges::ShbMax(stars) => (80 + stars.value()) as usize,
        }
    }

    /// The recipe level of the range.
    pub fn to_recipe_level(self) -> (r: u16)
        requires
            self.spec_valid(),
        ensures
            r == RLVL@[self.spec_canonical_idx()],
    {
        RLVL[self.to_canonical_idx()]
    }

    /// The craftsmanship the range expects.
    pub fn to_recipe_level_craftsmanship(self) -> (r: u16)
        requires
            self.spec_valid(),
        ensures
            r == RLVL_CRAFTSMANSHIP@[self.spec_canonical_idx()],
    {
        RLVL_CRAFTSMANSHIP[self.to_canonical_idx()]
    }

    /// The progress the range's recipes need.
    pub fn to_recipe_level_progress(self) -> (r: u32)
        requires
            self.spec_valid(),
        ensures
            r == RLVL_PROGRESS@[self.spec_canonical_idx()],
    {
        RLVL_PROGRESS[self.to_canonical_idx()]
    }

    /// The control the range expects.
    pub fn to_recipe_level_control(self) -> (r: u16)
        requires
            self.spec_valid(),
        ensures
            r == RLVL_CONTROL@[self.spec_canonical_idx()],
    {
        RLVL_CONTROL[self.to_canonical_idx()]
    }

    /// The quality the range's recipes reach.
    pub fn to_recipe_level_quality(self) -> (r: u32)
        requires
            self.spec_valid(),
        ensures
            r == RLVL_QUALITY@[self.spec_canonical_idx()],
    {
        RLVL_QUALITY[self.to_canonical_idx()]
    }

    /// The durability of the range's recipes.
    pub fn to_recipe_level_durability(self) -> (r: u8)
        requires
            self.spec_valid(),
        ensures
            r == RLVL_DURABILITY@[self.spec_canonical_idx()],
    {
        RLVL_DURABILITY[self.to_canonical_idx()]
    }

    /// The conditions of the range's recipes.
    pub fn to_recipe_level_conditions(self) -> (r: ConditionBits)
        requires
            self.spec_valid(),
        ensures
            r.0 == RLVL_CONDITIONS@[self.spec_canonical_idx()],
    {
        ConditionBits(RLVL_CONDITIONS[self.to_canonical_idx()])
    }
}

} // verus!
