use ffxiv_crafting::actions::buffs::{FinalAppraisal, GreatStrides, Manipulation};
use ffxiv_crafting::actions::failure::NullFailure;
use ffxiv_crafting::actions::progress::{BasicSynthesis, RapidSynthesis};
use ffxiv_crafting::actions::quality::{BasicTouch, PreparatoryTouch, TrainedEye};
use ffxiv_crafting::actions::{Action, ActionOutcome, FfxivCraftingActions};
use ffxiv_crafting::buffs::DurationalBuff;
use ffxiv_crafting::conditions::{
    QARegularConditions, ALL_EXPERT_CONDITIONS_UNUSED, EXPERT_CRAFT_1, EXPERT_CRAFT_2,
    NORMAL_CONDITIONS, RAW_CENTERED, RAW_EXCELLENT, RAW_GOOD, RAW_MALLEABLE, RAW_NORMAL,
    RAW_PLIANT, RAW_POOR, RAW_PRIMED, RAW_STURDY,
};
use ffxiv_crafting::conditions::RestoExpertConditions;
use ffxiv_crafting::quality_map::HQMap;
use ffxiv_crafting::recipe::{RLvl, Recipe};
use ffxiv_crafting::{CharacterStats, CraftingSimulator, CraftingState};

use ffxiv_crafting::actions::{RandomAction, RollOutcome};
use rand::rngs::StdRng;
use rand::{Rng, SeedableRng};
use ffxiv_crafting::buffs::Buff;
use ffxiv_crafting::buffs::misc::SpecialistActions;
use ffxiv_crafting::buffs::quality::InnerQuiet;
use ffxiv_crafting::conditions::ConditionBits;
use ffxiv_crafting::recipe::{bits_to_condition_error_msg, RecipeError};
use ffxiv_crafting::quality_map::{HQChance, QualityMap, MAX_RECIPE_QUALITY};

const TEST_STATS: CharacterStats = CharacterStats {
    craftsmanship: 3691,
    control: 3664,
    max_cp: 564,
    char_level: 90,
};

fn simulator() -> CraftingSimulator<QARegularConditions, HQMap> {
    let recipe =
        Recipe::<QARegularConditions>::try_from_rlvl_modifiers(RLvl(580), 140, 100, 100).unwrap();
    CraftingSimulator::from_character_recipe(TEST_STATS, recipe)
}

#[test]
fn act_matches_prospective_act() {
    let sim = simulator();
    let state = CraftingState::new_simulation(&sim);
    for action in [
        FfxivCraftingActions::BasicTouch,
        FfxivCraftingActions::Groundwork,
        FfxivCraftingActions::Veneration,
        FfxivCraftingActions::MastersMend,
    ] {
        assert_eq!(Ok(action.act(&state)), action.prospective_act(&state));
    }
}

#[test]
fn inner_quiet_never_exceeds_ten() {
    let sim = simulator();
    let mut state = CraftingState::new_simulation(&sim);
    for _ in 0..6 {
        state.curr_durability = 70;
        state = state + PreparatoryTouch.act(&state).outcome();
        assert!(state.buffs.quality.inner_quiet.stacks() <= 10);
    }
    assert_eq!(state.buffs.quality.inner_quiet.stacks(), 10);
}

#[test]
fn failure_costs_like_success() {
    let sim = simulator();
    let state = CraftingState::new_simulation(&sim);
    let success = RapidSynthesis.act(&state).outcome();
    let failure = NullFailure(RapidSynthesis).act(&state).outcome();
    assert_eq!(success.added_cp, failure.added_cp);
    assert_eq!(success.action_durability, failure.action_durability);
    assert_eq!(failure.added_progress, 0);
    assert_eq!(failure.added_quality, 0);
    assert!(failure.time_passed);
    assert_eq!(success.added_progress, 1140);
}

#[test]
fn ending_craft_gets_no_repair() {
    let sim = simulator();
    let mut state = CraftingState::new_simulation(&sim);
    state = state + Manipulation.act(&state).outcome();
    state.curr_progress = 3800;
    let outcome = BasicSynthesis.act(&state);
    assert!(matches!(outcome, ActionOutcome::Completed(d) if d.buff_repair == 0));
    let mut state = CraftingState::new_simulation(&sim);
    state = state + Manipulation.act(&state).outcome();
    state.curr_durability = 10;
    let outcome = BasicSynthesis.act(&state);
    assert!(matches!(outcome, ActionOutcome::Failure(d) if d.buff_repair == 0));
}

#[test]
fn final_appraisal_stops_one_short() {
    let sim = simulator();
    let mut state = CraftingState::new_simulation(&sim);
    state = state + FinalAppraisal.act(&state).outcome();
    state.curr_progress = 3800;
    let outcome = BasicSynthesis.act(&state);
    let delta = match outcome {
        ActionOutcome::InProgress(d) => d,
        other => panic!("completed under Final Appraisal: {:?}", other),
    };
    assert!(delta.final_appraisal_triggered);
    assert_eq!(state.curr_progress + delta.added_progress, 3899);
    assert_eq!(delta.new_buffs.progress.final_appraisal.0, 0);
}

#[test]
fn time_stop_freezes_buffs() {
    let sim = simulator();
    let mut state = CraftingState::new_simulation(&sim);
    state = state + GreatStrides.act(&state).outcome();
    let delta = FinalAppraisal.act(&state).outcome();
    assert!(!delta.time_passed);
    assert_eq!(delta.new_buffs.quality, state.buffs.quality);
}

#[test]
fn manipulation_recast_gets_no_repair() {
    let sim = simulator();
    let mut state = CraftingState::new_simulation(&sim);
    state = state + Manipulation.act(&state).outcome();
    let delta = Manipulation.act(&state).outcome();
    assert_eq!(delta.buff_repair, 0);
    assert_eq!(delta.new_buffs.durability.manipulation, ffxiv_crafting::buffs::durability::Manipulation(8));
    let delta = BasicTouch.act(&state).outcome();
    assert_eq!(delta.buff_repair, 5);
}

#[test]
fn touch_consumes_great_strides() {
    let sim = simulator();
    let mut state = CraftingState::new_simulation(&sim);
    state = state + GreatStrides.act(&state).outcome();
    assert_eq!(state.buffs.quality.great_strides, ffxiv_crafting::buffs::quality::GreatStrides(3));
    let delta = BasicTouch.act(&state).outcome();
    assert_eq!(delta.added_quality, 504);
    assert_eq!(delta.new_buffs.quality.great_strides.0, 0);
}

#[test]
fn trained_eye_reaches_max_quality() {
    let mut recipe =
        Recipe::<QARegularConditions>::try_from_rlvl_modifiers(RLvl(580), 140, 100, 100).unwrap();
    recipe.required_character_level = 70;
    let sim = CraftingSimulator::<QARegularConditions, HQMap>::from_character_recipe(TEST_STATS, recipe);
    let state = CraftingState::new_simulation(&sim);
    let delta = TrainedEye.act(&state).outcome();
    assert_eq!(delta.added_quality, 10920);
    assert_eq!(delta.added_cp, -250);
}

#[test]
fn condition_sets_are_flag_unions() {
    assert_eq!(NORMAL_CONDITIONS, RAW_NORMAL | RAW_GOOD | RAW_EXCELLENT | RAW_POOR);
    assert_eq!(EXPERT_CRAFT_1, RAW_NORMAL | RAW_GOOD | RAW_CENTERED | RAW_PLIANT | RAW_STURDY);
    assert_eq!(
        EXPERT_CRAFT_2,
        RAW_NORMAL | RAW_GOOD | RAW_PLIANT | RAW_STURDY | RAW_MALLEABLE | RAW_PRIMED
    );
    assert_eq!(
        ALL_EXPERT_CONDITIONS_UNUSED,
        RAW_NORMAL | RAW_GOOD | RAW_CENTERED | RAW_PLIANT | RAW_STURDY | RAW_MALLEABLE | RAW_PRIMED
    );
}

#[test]
fn pliant_halves_cp_and_sturdy_halves_durability() {
    let recipe = Recipe::<RestoExpertConditions> {
        rlvl: RLvl(580),
        required_character_level: 90,
        stars: 1,
        max_quality: 10000,
        max_progress: 3000,
        max_durability: 70,
        progress_divider: 130,
        quality_divider: 130,
        progress_modifier: 80,
        quality_modifier: 80,
        initial_condition: RestoExpertConditions::Normal,
    };
    let sim = CraftingSimulator::<RestoExpertConditions, HQMap>::from_character_recipe(TEST_STATS, recipe);
    let mut state = CraftingState::new_simulation(&sim);
    state.condition = RestoExpertConditions::Pliant;
    assert_eq!(FfxivCraftingActions::CarefulSynthesis.act(&state).outcome().added_cp, -3);
    state.condition = RestoExpertConditions::Sturdy;
    assert_eq!(FfxivCraftingActions::PrudentTouch.act(&state).outcome().action_durability, -3);
    state.condition = RestoExpertConditions::Primed;
    let delta = FfxivCraftingActions::Veneration.act(&state).outcome();
    assert_eq!(delta.new_buffs.progress.veneration, ffxiv_crafting::buffs::progress::Veneration(4).activate(2));
    state.condition = RestoExpertConditions::Malleable;
    assert_eq!(FfxivCraftingActions::BasicSynthesis.act(&state).outcome().added_progress, 410);
}

#[test]
fn rapid_synthesis_fails_below_its_rate() {
    let sim = simulator();
    let state = CraftingState::new_simulation(&sim);
    assert_eq!(RapidSynthesis.fail_rate(&state), 50);
    assert!(matches!(RapidSynthesis.outcome_for_roll(&state, 0), RollOutcome::Failure(NullFailure(RapidSynthesis))));
    assert!(matches!(RapidSynthesis.outcome_for_roll(&state, 49), RollOutcome::Failure(NullFailure(RapidSynthesis))));
    assert!(matches!(RapidSynthesis.outcome_for_roll(&state, 50), RollOutcome::Success(RapidSynthesis)));
    assert!(matches!(RapidSynthesis.outcome_for_roll(&state, 99), RollOutcome::Success(RapidSynthesis)));
}

#[test]
fn failures_cover_fail_rate_of_the_rolls() {
    let sim = simulator();
    let state = CraftingState::new_simulation(&sim);
    let failing = (0u8..100)
        .filter(|roll| matches!(RapidSynthesis.outcome_for_roll(&state, *roll), RollOutcome::Failure(_)))
        .count();
    assert_eq!(failing, 50);
    let failing = (0u8..100)
        .filter(|roll| matches!(BasicSynthesis.outcome_for_roll(&state, *roll), RollOutcome::Failure(_)))
        .count();
    assert_eq!(failing, 0);
}

#[test]
fn sure_action_leaves_generator_alone() {
    let sim = simulator();
    let state = CraftingState::new_simulation(&sim);
    let mut used = StdRng::seed_from_u64(7);
    let mut untouched = StdRng::seed_from_u64(7);
    assert!(matches!(BasicSynthesis.roll(&mut used, &state), RollOutcome::Success(BasicSynthesis)));
    assert_eq!(used.gen::<u64>(), untouched.gen::<u64>());
}

#[test]
fn condition_moves_on_when_no_turn_passes() {
    let sim = simulator();
    let mut state = CraftingState::new_simulation(&sim);
    state.condition = QARegularConditions::Good;
    let delta = FinalAppraisal.act(&state).outcome();
    assert!(!delta.time_passed);
    let mut rng = StdRng::seed_from_u64(11);
    let next = state.gen_succ(delta, &mut rng);
    assert_eq!(next.condition, QARegularConditions::Normal);
    assert!(next.buffs.progress.final_appraisal.is_active());
}

#[test]
fn add_in_place_matches_add() {
    let sim = simulator();
    let state = CraftingState::new_simulation(&sim);
    let delta = BasicSynthesis.act(&state).outcome();
    let added = state + delta;
    let by_ref = &state + delta;
    let mut in_place = state;
    in_place += delta;
    assert_eq!(in_place, added);
    assert_eq!(by_ref, added);
    assert_eq!(in_place.curr_progress, added.curr_progress);
    assert_eq!(in_place.curr_durability, 60);
    assert_eq!(in_place.curr_cp, 564);
    assert!(!in_place.first_step);
}

#[test]
fn states_compare_without_their_problem() {
    let sim = simulator();
    let other_sim = simulator();
    let a = CraftingState::new_simulation(&sim);
    let b = CraftingState::new_simulation(&other_sim);
    assert_eq!(a, b);
    assert!(sim == other_sim);
    let mut c = a;
    c.curr_quality = 1;
    assert_ne!(a, c);
}

#[test]
fn in_place_operators_on_buffs() {
    let mut iq = InnerQuiet(8);
    iq += 1;
    assert_eq!(iq, InnerQuiet(9));
    iq += 3;
    assert_eq!(iq, InnerQuiet(10));
    let mut specialist = SpecialistActions::Availalble(2);
    specialist -= 1;
    assert_eq!(specialist, SpecialistActions::Availalble(1));
    specialist -= 1;
    assert_eq!(specialist, SpecialistActions::Unavailable);
}

#[test]
fn recipe_error_messages() {
    let out: RecipeError<QARegularConditions> = RecipeError::RLvlOutOfBounds(RLvl(1));
    assert_eq!(
        out.message(),
        "The given RLvl was out of the allowed bounds; expected 580 <= rlvl <= 580 but got the value 1"
    );
    let far: RecipeError<QARegularConditions> = RecipeError::RLvlOutOfBounds(RLvl(65535));
    assert_eq!(
        far.message(),
        "The given RLvl was out of the allowed bounds; expected 580 <= rlvl <= 580 but got the value 65535"
    );
    let wrong: RecipeError<RestoExpertConditions> = RecipeError::InvalidCondition {
        got: RestoExpertConditions::Normal,
        expected: ConditionBits(NORMAL_CONDITIONS),
    };
    assert_eq!(
        wrong.message(),
        "the standard set of conditions (normal/good/poor/excellent); use NoQARegularConditions or QARegularConditions"
    );
    assert_eq!(
        bits_to_condition_error_msg(ConditionBits(EXPERT_CRAFT_2)),
        "the non-relic Ishgard Restoration expert conditions;\n        use RestoExpertConditions"
    );
    assert_eq!(
        bits_to_condition_error_msg(ConditionBits(EXPERT_CRAFT_1)),
        "the Shadowbringers crafting relic expert conditions;\n        use RelicExpertConditions"
    );
    assert!(bits_to_condition_error_msg(ConditionBits(ALL_EXPERT_CONDITIONS_UNUSED))
        .starts_with("an unused set of conditions; this isn't actually an in-use RLVL"));
}

#[test]
fn hq_chance_at_the_largest_quality() {
    assert_eq!(MAX_RECIPE_QUALITY, 21_367_996);
    assert_eq!(HQMap::convert(MAX_RECIPE_QUALITY, MAX_RECIPE_QUALITY), HQChance(100));
    assert_eq!(HQMap::convert(0, MAX_RECIPE_QUALITY), HQChance(1));
}

#[test]
fn rlvl_bounds_are_the_table_range() {
    assert!(RLvl(RLvl::MIN_RLVL).verify_bounds());
    assert!(RLvl(RLvl::MAX_RLVL).verify_bounds());
    assert!(!RLvl(0).verify_bounds());
    assert!(!RLvl(RLvl::MAX_RLVL + 1).verify_bounds());
}

#[test]
fn durability_modifier_rounds_to_nearest() {
    let recipe =
        Recipe::<QARegularConditions>::try_from_rlvl_modifiers(RLvl(580), 100, 100, 58).unwrap();
    assert_eq!(recipe.max_durability, 41);
    let recipe =
        Recipe::<QARegularConditions>::try_from_rlvl_modifiers(RLvl(580), 100, 100, 50).unwrap();
    assert_eq!(recipe.max_durability, 35);
    let recipe =
        Recipe::<QARegularConditions>::try_from_rlvl_modifiers(RLvl(580), 101, 99, 100).unwrap();
    assert_eq!(recipe.max_quality, 7878);
    assert_eq!(recipe.max_progress, 3861);
}
