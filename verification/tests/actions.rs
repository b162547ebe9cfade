use ffxiv_crafting::actions::buffs::{
    FinalAppraisal, GreatStrides, HeartAndSoul, Innovation, Manipulation, Veneration, WasteNot,
    WasteNot2,
};
use ffxiv_crafting::actions::misc::{
    CarefulObservation, DelicateSynthesis, MastersMend, Observe, TricksOfTheTrade,
};
use ffxiv_crafting::actions::progress::{
    BasicSynthesis, CarefulSynthesis, FocusedSynthesis, Groundwork, IntensiveSynthesis,
    MuscleMemory, PrudentSynthesis, RapidSynthesis,
};
use ffxiv_crafting::actions::quality::{
    BasicTouch, ByregotsBlessing, FocusedTouch, HastyTouch, StandardTouch,
};
use ffxiv_crafting::actions::{
    Action, ActionOutcome, FfxivCraftingActions, RandomAction, StateDelta,
};
use ffxiv_crafting::buffs::combo::{BasicTouchCombo, ObservationCombo};
use ffxiv_crafting::buffs::durability::WasteNot as WasteNotBuff;
use ffxiv_crafting::buffs::misc::{HeartAndSoul as HeartAndSoulBuff, SpecialistActions};
use ffxiv_crafting::buffs::quality::InnerQuiet;
use ffxiv_crafting::buffs::{BuffState, DurationalBuff};
use ffxiv_crafting::conditions::QARegularConditions;
use ffxiv_crafting::quality_map::{HQChance, HQMap};
use ffxiv_crafting::recipe::{RLvl, Recipe};
use ffxiv_crafting::{CharacterStats, CraftingSimulator, CraftingState};

type State<'a> = CraftingState<'a, QARegularConditions, HQMap>;

/// A level 90 crafter with melded Pactmaker gear under food and medicine in patch 6.1.
const TEST_STATS: CharacterStats = CharacterStats {
    craftsmanship: 3691,
    control: 3664,
    max_cp: 564,
    char_level: 90,
};

fn classical_recipe() -> Recipe<QARegularConditions> {
    Recipe::<QARegularConditions>::try_from_rlvl_modifiers(RLvl(580), 140, 100, 100).unwrap()
}

fn classical_simulator() -> CraftingSimulator<QARegularConditions, HQMap> {
    CraftingSimulator::from_character_recipe(TEST_STATS, classical_recipe())
}

fn same_state(a: &State, b: &State) -> bool {
    a.condition == b.condition
        && a.curr_quality == b.curr_quality
        && a.curr_progress == b.curr_progress
        && a.curr_durability == b.curr_durability
        && a.curr_cp == b.curr_cp
        && a.buffs == b.buffs
        && a.first_step == b.first_step
}

struct ActionTester<'a> {
    name: &'a str,
    state: State<'a>,
    delta: StateDelta,
}

impl<'a> ActionTester<'a> {
    fn make<A: Action>(action: A, name: &'a str, state: State<'a>) -> Self {
        let delta = match action.prospective_act(&state) {
            Ok(ActionOutcome::InProgress(delta)) => delta,
            Ok(other) => panic!("{} made craft fail or succeed: {:?}", name, other),
            Err(err) => panic!(
                "Error trying to execute {} in a valid state: {}",
                name,
                err.message()
            ),
        };
        ActionTester { name, state, delta }
    }

    fn result(&self) -> State<'a> {
        self.state + (self.delta)
    }

    fn had_effect(self) -> Self {
        assert!(!same_state(&self.state, &self.result()), "Applying {} has no effect", self.name);
        self
    }

    fn modified_cp(self, amount: i16) -> Self {
        assert_eq!(self.result().curr_cp, self.state.curr_cp + amount, "{} CP", self.name);
        self
    }

    fn used_cp(self, amount: i16) -> Self {
        assert_eq!(self.result().curr_cp, self.state.curr_cp - amount, "{} CP", self.name);
        self
    }

    fn used_delineation(self) -> Self {
        let expected = match self.state.buffs.specialist_actions {
            SpecialistActions::Availalble(n) if n >= 2 => SpecialistActions::Availalble(n - 1),
            SpecialistActions::Availalble(_) => SpecialistActions::Unavailable,
            _ => panic!("Action {} should not execute without delineations", self.name),
        };
        assert_eq!(self.result().buffs.specialist_actions, expected, "{}", self.name);
        self
    }

    fn passed_time(self, should_pass_time: bool) -> Self {
        assert_eq!(self.delta.time_passed, should_pass_time, "{} time", self.name);
        self
    }

    fn triggered_buff<B: PartialEq + std::fmt::Debug, F: Fn(BuffState) -> B>(
        self,
        buff: B,
        get_buff: F,
    ) -> Self {
        assert_eq!(get_buff(self.result().buffs), buff, "{} buff", self.name);
        self
    }

    fn changed_durability(self, change: i8) -> Self {
        assert_eq!(
            self.state.curr_durability + change,
            self.result().curr_durability,
            "{} durability",
            self.name
        );
        self
    }

    fn added_progress(self, progress: u32) -> Self {
        assert_eq!(self.result().curr_progress - self.state.curr_progress, progress, "{}", self.name);
        self
    }

    fn added_quality(self, quality: u32) -> Self {
        assert_eq!(self.result().curr_quality - self.state.curr_quality, quality, "{}", self.name);
        self
    }
}

#[test]
fn verify_recipe_modifiers_classical() {
    let recipe = classical_recipe();
    assert_eq!(recipe.max_durability, 70);
    assert_eq!(recipe.max_progress, 3900);
    assert_eq!(recipe.max_quality, 10920);
}

#[test]
fn veneration() {
    let sim = classical_simulator();
    ActionTester::make(Veneration, "Veneration", CraftingState::new_simulation(&sim))
        .had_effect()
        .modified_cp(-18)
        .passed_time(true)
        .triggered_buff(
            ffxiv_crafting::buffs::progress::Veneration::default().activate(0),
            |buffs| buffs.progress.veneration,
        )
        .changed_durability(0);
}

#[test]
fn waste_not() {
    let sim = classical_simulator();
    ActionTester::make(WasteNot, "Waste Not", CraftingState::new_simulation(&sim))
        .had_effect()
        .modified_cp(-56)
        .passed_time(true)
        .triggered_buff(WasteNotBuff::WasteNot(4), |buffs| buffs.durability.waste_not)
        .changed_durability(0);
}

#[test]
fn great_strides() {
    let sim = classical_simulator();
    ActionTester::make(GreatStrides, "Great Strides", CraftingState::new_simulation(&sim))
        .had_effect()
        .modified_cp(-32)
        .passed_time(true)
        .triggered_buff(
            ffxiv_crafting::buffs::quality::GreatStrides::default().activate(0),
            |buffs| buffs.quality.great_strides,
        )
        .changed_durability(0);
}

#[test]
fn innovation() {
    let sim = classical_simulator();
    ActionTester::make(Innovation, "Innovation", CraftingState::new_simulation(&sim))
        .had_effect()
        .modified_cp(-18)
        .passed_time(true)
        .triggered_buff(
            ffxiv_crafting::buffs::quality::Innovation::default().activate(0),
            |buffs| buffs.quality.innovation,
        )
        .changed_durability(0);
}

#[test]
fn final_appraisal() {
    let sim = classical_simulator();
    ActionTester::make(FinalAppraisal, "Final Appraisal", CraftingState::new_simulation(&sim))
        .had_effect()
        .modified_cp(-1)
        .passed_time(false)
        .triggered_buff(
            ffxiv_crafting::buffs::progress::FinalAppraisal::default().activate(0),
            |buffs| buffs.progress.final_appraisal,
        )
        .changed_durability(0);
}

#[test]
fn waste_not_2() {
    let sim = classical_simulator();
    ActionTester::make(WasteNot2, "Waste Not 2", CraftingState::new_simulation(&sim))
        .had_effect()
        .modified_cp(-98)
        .passed_time(true)
        .triggered_buff(WasteNotBuff::WasteNot2(8), |buffs| buffs.durability.waste_not)
        .changed_durability(0);
}

#[test]
fn manipulation() {
    let sim = classical_simulator();
    ActionTester::make(Manipulation, "Manipulation", CraftingState::new_simulation(&sim))
        .had_effect()
        .modified_cp(-96)
        .passed_time(true)
        .triggered_buff(
            ffxiv_crafting::buffs::durability::Manipulation::default().activate(0),
            |buffs| buffs.durability.manipulation,
        )
        .changed_durability(0);
}

#[test]
fn heart_and_soul() {
    let sim = classical_simulator();
    let mut state = CraftingState::new_simulation(&sim);
    state.buffs.specialist_actions = SpecialistActions::Availalble(3);
    ActionTester::make(HeartAndSoul, "Heart And Soul", state)
        .had_effect()
        .modified_cp(0)
        .used_delineation()
        .passed_time(false)
        .triggered_buff(HeartAndSoulBuff::Active, |buffs| buffs.heart_and_soul)
        .changed_durability(0);
}

#[test]
fn verify_buff_tick() {
    let sim = classical_simulator();
    let mut state = CraftingState::new_simulation(&sim);
    state.buffs.quality.innovation = ffxiv_crafting::buffs::quality::Innovation::default().activate(0);
    let result = state + (BasicTouch.act(&state).outcome());
    assert_eq!(result.buffs.quality.innovation, state.buffs.quality.innovation.decay());
}

#[test]
fn masters_mend() {
    let sim = classical_simulator();
    let state = CraftingState::new_simulation(&sim);
    let state = state + (BasicTouch.prospective_act(&state).unwrap().outcome());
    ActionTester::make(MastersMend, "Master's Mend", state)
        .had_effect()
        .modified_cp(-88)
        .passed_time(true)
        .changed_durability(10);
}

#[test]
fn masters_mend_unsaturated() {
    let sim = classical_simulator();
    let mut state = CraftingState::new_simulation(&sim);
    for _ in 0..4 {
        state = state + (BasicTouch.prospective_act(&state).unwrap().outcome());
    }
    ActionTester::make(MastersMend, "Master's Mend", state)
        .had_effect()
        .modified_cp(-88)
        .passed_time(true)
        .changed_durability(30);
}

#[test]
fn observe() {
    let sim = classical_simulator();
    ActionTester::make(Observe, "Observe", CraftingState::new_simulation(&sim))
        .had_effect()
        .modified_cp(-7)
        .passed_time(true)
        .changed_durability(0)
        .triggered_buff(ObservationCombo::Active, |buffs| buffs.combo.observation);
}

#[test]
fn observe_combo() {
    let sim = classical_simulator();
    let state = CraftingState::new_simulation(&sim);
    assert_eq!(FocusedSynthesis.fail_rate(&state), 50, "Focused Synthesis fail rate wrong");
    assert_eq!(FocusedTouch.fail_rate(&state), 50, "Focused Touch fail rate wrong");
    let state = state + (Observe.act(&state).outcome());
    assert_eq!(FocusedSynthesis.fail_rate(&state), 0);
    assert_eq!(FocusedTouch.fail_rate(&state), 0);
}

#[test]
fn tricks_of_the_trade() {
    let sim = classical_simulator();
    let mut state = CraftingState::new_simulation(&sim);
    state.curr_cp -= 10;
    state.condition = QARegularConditions::Good;
    ActionTester::make(TricksOfTheTrade, "Tricks of the Trade", state)
        .had_effect()
        .modified_cp(10)
        .passed_time(true)
        .changed_durability(0);
}

#[test]
fn tricks_of_the_trade_unsaturated() {
    let sim = classical_simulator();
    let mut state = CraftingState::new_simulation(&sim);
    state.curr_cp -= 30;
    state.condition = QARegularConditions::Good;
    ActionTester::make(TricksOfTheTrade, "Tricks of the Trade", state)
        .had_effect()
        .modified_cp(20)
        .passed_time(true)
        .changed_durability(0);
}

#[test]
fn delicate_synthesis() {
    let sim = classical_simulator();
    ActionTester::make(DelicateSynthesis, "Delicate Synthesis", CraftingState::new_simulation(&sim))
        .had_effect()
        .modified_cp(-32)
        .passed_time(true)
        .changed_durability(-10)
        .triggered_buff(InnerQuiet::default() + 1, |buffs| buffs.quality.inner_quiet)
        .added_progress(228)
        .added_quality(252);
}

#[test]
fn careful_observation() {
    let sim = classical_simulator();
    let mut state = CraftingState::new_simulation(&sim);
    state.buffs.specialist_actions = SpecialistActions::Availalble(3);
    state.buffs.quality.innovation = ffxiv_crafting::buffs::quality::Innovation::default().activate(0);
    ActionTester::make(CarefulObservation, "Careful Observation", state)
        .had_effect()
        .modified_cp(0)
        .used_delineation()
        .passed_time(false)
        .changed_durability(0);
}

#[test]
fn careful_observation_no_buff_tick() {
    let sim = classical_simulator();
    let mut state = CraftingState::new_simulation(&sim);
    state.buffs.specialist_actions = SpecialistActions::Availalble(3);
    state.buffs.quality.innovation = ffxiv_crafting::buffs::quality::Innovation::default().activate(0);
    let result = state + (CarefulObservation.act(&state).outcome());
    assert_eq!(result.buffs.quality.innovation, state.buffs.quality.innovation);
}

#[test]
fn basic_synthesis() {
    let sim = classical_simulator();
    ActionTester::make(BasicSynthesis, "Basic Synthesis", CraftingState::new_simulation(&sim))
        .had_effect()
        .modified_cp(0)
        .passed_time(true)
        .triggered_buff(InnerQuiet::default(), |buffs| buffs.quality.inner_quiet)
        .changed_durability(-10)
        .added_progress(273)
        .added_quality(0);
}

#[test]
fn rapid_synthesis() {
    let sim = classical_simulator();
    ActionTester::make(RapidSynthesis, "Rapid Synthesis", CraftingState::new_simulation(&sim))
        .had_effect()
        .modified_cp(0)
        .passed_time(true)
        .changed_durability(-10)
        .added_progress(1140);
}

#[test]
fn muscle_memory() {
    let sim = classical_simulator();
    ActionTester::make(MuscleMemory, "Muscle Memory", CraftingState::new_simulation(&sim))
        .had_effect()
        .modified_cp(-6)
        .passed_time(true)
        .changed_durability(-10)
        .added_progress(684)
        .triggered_buff(
            ffxiv_crafting::buffs::progress::MuscleMemory::default().activate(0),
            |buffs| buffs.progress.muscle_memory,
        );
}

#[test]
#[should_panic(expected = "Cannot execute this action in the current state")]
fn muscle_memory_first_step() {
    let sim = classical_simulator();
    let state = CraftingState::new_simulation(&sim);
    let state = state + (BasicTouch.prospective_act(&state).unwrap().outcome());
    ActionTester::make(MuscleMemory, "Muscle Memory", state);
}

#[test]
fn careful_synthesis() {
    let sim = classical_simulator();
    ActionTester::make(CarefulSynthesis, "Careful Synthesis", CraftingState::new_simulation(&sim))
        .had_effect()
        .modified_cp(-7)
        .passed_time(true)
        .changed_durability(-10)
        .added_progress(410);
}

#[test]
fn focused_synthesis() {
    let sim = classical_simulator();
    ActionTester::make(FocusedSynthesis, "Focused Synthesis", CraftingState::new_simulation(&sim))
        .had_effect()
        .modified_cp(-5)
        .passed_time(true)
        .changed_durability(-10)
        .added_progress(456);
}

#[test]
fn groundwork() {
    let sim = classical_simulator();
    ActionTester::make(Groundwork, "Groundwork", CraftingState::new_simulation(&sim))
        .had_effect()
        .modified_cp(-18)
        .passed_time(true)
        .changed_durability(-20)
        .added_progress(820);
}

#[test]
fn groundwork_durability_efficiency() {
    let sim = classical_simulator();
    let mut state = CraftingState::new_simulation(&sim);
    state.curr_durability = 15;
    let outcome = Groundwork.prospective_act(&state).unwrap();
    assert!(
        matches!(outcome, ActionOutcome::Failure(_)),
        "Groundwork at low durability did not make craft fail"
    );
    assert_eq!(outcome.outcome().added_progress, 410);
}

#[test]
fn intensive_synthesis() {
    let sim = classical_simulator();
    let mut state = CraftingState::new_simulation(&sim);
    state.condition = QARegularConditions::Good;
    ActionTester::make(IntensiveSynthesis, "Intensive Synthesis", state)
        .had_effect()
        .modified_cp(-6)
        .passed_time(true)
        .changed_durability(-10)
        .added_progress(912);
}

#[test]
#[should_panic(expected = "Cannot execute this action in the current state")]
fn intensive_synthesis_normal() {
    let sim = classical_simulator();
    ActionTester::make(IntensiveSynthesis, "Intensive Synthesis", CraftingState::new_simulation(&sim));
}

#[test]
fn prudent_synthesis() {
    let sim = classical_simulator();
    ActionTester::make(PrudentSynthesis, "Prudent Synthesis", CraftingState::new_simulation(&sim))
        .had_effect()
        .modified_cp(-18)
        .passed_time(true)
        .changed_durability(-5)
        .added_progress(410);
}

#[test]
#[should_panic(expected = "Cannot execute this action in the current state")]
fn prudent_synthesis_waste_not() {
    let sim = classical_simulator();
    let state = CraftingState::new_simulation(&sim);
    let state = state + (WasteNot.prospective_act(&state).unwrap().outcome());
    ActionTester::make(PrudentSynthesis, "Prudent Synthesis", state);
}

#[test]
fn basic_touch() {
    let sim = classical_simulator();
    ActionTester::make(BasicTouch, "Basic Touch", CraftingState::new_simulation(&sim))
        .had_effect()
        .used_cp(FfxivCraftingActions::BasicTouch.cp_cost(BasicTouchCombo::Inactive) as i16)
        .passed_time(true)
        .triggered_buff(BasicTouchCombo::BasicTouch, |buffs| buffs.combo.basic_touch)
        .triggered_buff(InnerQuiet::default() + 1, |buffs| buffs.quality.inner_quiet)
        .changed_durability(FfxivCraftingActions::BasicTouch.durability_usage())
        .added_quality(252);
}

#[test]
fn hasty_touch() {
    let sim = classical_simulator();
    ActionTester::make(HastyTouch, "Hasty Touch", CraftingState::new_simulation(&sim))
        .had_effect()
        .used_cp(FfxivCraftingActions::HastyTouch.cp_cost(BasicTouchCombo::Inactive) as i16)
        .passed_time(true)
        .triggered_buff(InnerQuiet::default() + 1, |buffs| buffs.quality.inner_quiet)
        .changed_durability(FfxivCraftingActions::HastyTouch.durability_usage())
        .added_quality(252);
}

#[test]
fn standard_touch() {
    let sim = classical_simulator();
    ActionTester::make(StandardTouch, "Standard Touch", CraftingState::new_simulation(&sim))
        .had_effect()
        .used_cp(FfxivCraftingActions::StandardTouch.cp_cost(BasicTouchCombo::Inactive) as i16)
        .passed_time(true)
        .triggered_buff(InnerQuiet::default() + 1, |buffs| buffs.quality.inner_quiet)
        .triggered_buff(BasicTouchCombo::Inactive, |buffs| buffs.combo.basic_touch)
        .changed_durability(FfxivCraftingActions::StandardTouch.durability_usage())
        .added_quality(315);
}

#[test]
fn byregots_blessing() {
    let sim = classical_simulator();
    let state = CraftingState::new_simulation(&sim);
    let state = state + (BasicTouch.prospective_act(&state).unwrap().outcome());
    ActionTester::make(ByregotsBlessing, "Byregot's Blessing", state)
        .had_effect()
        .used_cp(FfxivCraftingActions::ByregotsBlessing.cp_cost(BasicTouchCombo::Inactive) as i16)
        .passed_time(true)
        .triggered_buff(InnerQuiet::default(), |buffs| buffs.quality.inner_quiet)
        .changed_durability(FfxivCraftingActions::ByregotsBlessing.durability_usage())
        .added_quality(332);
}

