use ffxiv_crafting::conditions::ConditionBits;
use ffxiv_crafting::lookups::{RecipeLevelRanges, ShbStars, Stars, RLVL_CONDITIONS};

const RLVL_CONDITIONS_RAW: [u16; 80 + 4 * 3 + 9] = [
    15, 15, 15, 15, 15, 15, 15, 15, 15, 15, 15, 15, 15, 15, 15, 15, 15, 15, 15, 15, 15, 15, 15,
    15, 15, 15, 15, 15, 15, 15, 15, 15, 15, 15, 15, 15, 15, 15, 15, 15, 15, 15, 15, 15, 15, 15,
    15, 15, 15, 15, 15, 15, 15, 15, 15, 15, 15, 15, 15, 15, 15, 15, 15, 15, 15, 15, 15, 15, 15,
    15, 15, 15, 15, 15, 15, 15, 15, 15, 15, 15, 15, 15, 15, 15, 15, 15, 15, 15, 15, 15, 15, 15,
    15, 15, 15, 15, 115, 15, 115, 115, 483,
];

#[test]
fn rlvl_matches_conditions() {
    assert_eq!(RLVL_CONDITIONS_RAW, RLVL_CONDITIONS);
}

#[test]
fn canonical_indices() {
    assert_eq!(RecipeLevelRanges::ArrLeveling(40).to_canonical_idx(), 40);
    assert_eq!(RecipeLevelRanges::HwLeveling(55).to_canonical_idx(), 59);
    assert_eq!(RecipeLevelRanges::ArrMax(Stars::Two).to_canonical_idx(), 52);
    assert_eq!(RecipeLevelRanges::ShbMax(ShbStars::FourGold3).to_canonical_idx(), 88);
}

#[test]
fn range_tables() {
    let range = RecipeLevelRanges::ShbMax(ShbStars::FourGold3);
    assert_eq!(range.to_recipe_level(), 409);
    assert_eq!(range.to_recipe_level_craftsmanship(), 1580);
    assert_eq!(range.to_recipe_level_control(), 1464);
    assert_eq!(range.to_recipe_level_progress(), 3526);
    assert_eq!(range.to_recipe_level_quality(), 15322);
    assert_eq!(range.to_recipe_level_durability(), 80);
    assert_eq!(range.to_recipe_level_conditions(), ConditionBits(15));
    assert_eq!(RecipeLevelRanges::HwLeveling(55).to_recipe_level(), 139);
    assert_eq!(RecipeLevelRanges::ArrMax(Stars::Zero).to_recipe_level(), 55);
}
