use ffxiv_crafting::quality_map::{
    lookup_hq, CollectabilityMap, HQChance, HQMap, NQChance, QualityMap,
};
use ffxiv_crafting::recipe::{bits_to_condition_error_msg, RLvl, Recipe, RecipeError};
use ffxiv_crafting::conditions::{ConditionBits, QARegularConditions, RestoExpertConditions, NORMAL_CONDITIONS};

#[test]
fn hq_lookup_values() {
    assert_eq!(lookup_hq(0, 10000), 1);
    assert_eq!(lookup_hq(10000, 10000), 100);
    assert_eq!(lookup_hq(5000, 10000), 15);
    assert_eq!(HQMap::convert(20000, 10000), HQChance(100));
}

#[test]
fn hq_chance_is_monotonic() {
    let mut last = 0;
    for q in (0..=10920).step_by(7) {
        let HQChance(c) = HQMap::convert(q, 10920);
        assert!(c >= last);
        last = c;
    }
}

#[test]
fn collectability_is_a_tenth() {
    assert_eq!(CollectabilityMap::convert(1234, 5000).0, 123);
    assert_eq!(CollectabilityMap::convert(9999, 5000).0, 500);
}

#[test]
fn chance_complements() {
    assert_eq!(NQChance::from_hq(HQChance(30)), NQChance(70));
    assert_eq!(HQChance::from_nq(NQChance::default()), HQChance::default());
}

#[test]
fn recipe_errors() {
    assert!(matches!(
        Recipe::<QARegularConditions>::try_from_rlvl_modifiers(RLvl(1), 100, 100, 100),
        Err(RecipeError::RLvlOutOfBounds(RLvl(1)))
    ));
    assert!(matches!(
        Recipe::<RestoExpertConditions>::try_from_rlvl_modifiers(RLvl(580), 100, 100, 100),
        Err(RecipeError::InvalidCondition { got: RestoExpertConditions::Normal, expected: ConditionBits(15) })
    ));
    assert!(bits_to_condition_error_msg(ConditionBits(NORMAL_CONDITIONS)).contains("QARegularConditions"));
}
