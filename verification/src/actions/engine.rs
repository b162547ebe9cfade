//! How an action changes a crafting state, for every action at once: what it costs,
//! how much progress and quality it makes, which buffs it consumes and grants, and
//! the resulting delta and outcome.
use super::collection::FfxivCraftingActions;
use super::{ActionOutcome, StateDelta};
use crate::buffs::combo::{BasicTouchCombo, ObservationCombo};
use crate::buffs::durability::Manipulation as ManipulationBuff;
use crate::buffs::misc::HeartAndSoul as HeartAndSoulBuff;
use crate::buffs::progress::{
    FinalAppraisal as FinalAppraisalBuff, MuscleMemory as MuscleMemoryBuff, ProgressBuffs,
};
use crate::buffs::quality::{GreatStrides as GreatStridesBuff, InnerQuiet};
use crate::buffs::{Buff, BuffState, DurationalBuff};
use crate::conditions::Condition;
use crate::quality_map::QualityMap;
use crate::CraftingState;
use vstd::prelude::*;

verus! {

/// Whether the condition is Good or Excellent.
pub open spec fn good_or_excellent<C: Condition>(c: C) -> bool {
    c.spec_is_good() || c.spec_is_excellent()
}

/// The extra turns a buff gets when activated in condition `c` (2 when Primed).
pub open spec fn status_bonus<C: Condition>(c: C) -> u8 {
    c.spec_status_duration_modifier().spec_value()
}

/// `x` capped at the largest `u32`.
pub open spec fn sat_u32(x: int) -> int {
    if x > u32::MAX {
        u32::MAX as int
    } else {
        x
    }
}

/// The durability an action uses or restores lies between -20 and 30.
pub proof fn lemma_action_durability_range<C: Condition>(
    kind: FfxivCraftingActions,
    buffs: BuffState,
    condition: C,
)
    ensures
        -20 <= kind.spec_action_durability(buffs, condition) <= 30,
{
    let u = kind.spec_durability_usage();
    if u < 0 {
        let d = condition.spec_durability_modifier().spec_value();
        let w = buffs.durability.spec_durability_cost_mod();
        assert(d <= 100 && w <= 100);
        assert(-20 <= u);
        assert((-u) * d * w <= 20 * 100 * 100) by (nonlinear_arith)
            requires
                0 < -u <= 20,
                0 <= d <= 100,
                0 <= w <= 100,
        ;
        assert((-u) * d * w >= 0) by (nonlinear_arith)
            requires
                0 < -u <= 20,
                0 <= d <= 100,
                0 <= w <= 100,
        ;
    }
}

/// The CP an action adds lies between -250 and 20.
pub proof fn lemma_added_cp_range<C: Condition, M: QualityMap>(
    kind: FfxivCraftingActions,
    state: CraftingState<C, M>,
)
    ensures
        -250 <= kind.spec_added_cp(state) <= 20,
{
    if kind != FfxivCraftingActions::TricksOfTheTrade {
        let c = kind.spec_cp_cost(state.buffs.combo.basic_touch);
        let m = state.condition.spec_cp_usage_modifier().spec_value();
        assert(c <= 250 && m <= 100);
        assert(c * m <= 250 * 100) by (nonlinear_arith)
            requires
                0 <= c <= 250,
                0 <= m <= 100,
        ;
        assert(c * m >= 0) by (nonlinear_arith)
            requires
                0 <= c <= 250,
                0 <= m <= 100,
        ;
    }
}

/// The progress and quality an action makes are between zero and the largest `u32`.
pub proof fn lemma_gains_in_range<C: Condition, M: QualityMap>(
    kind: FfxivCraftingActions,
    state: CraftingState<C, M>,
)
    requires
        state.problem_def.computable(),
    ensures
        0 <= kind.spec_progress(state) <= u32::MAX,
        0 <= kind.spec_quality(state) <= u32::MAX,
{
    let sim = state.problem_def;
    let p = sim.character.craftsmanship * 10 / sim.recipe.progress_divider as int + 2;
    assert(p * sim.recipe.progress_modifier >= 0) by (nonlinear_arith)
        requires
            p >= 0,
    ;
    let q = sim.character.control * 10 / sim.recipe.quality_divider as int + 35;
    assert(q * sim.recipe.quality_modifier >= 0) by (nonlinear_arith)
        requires
            q >= 0,
    ;
    let bp = sim.spec_base_progress();
    let bq = sim.spec_base_quality();
    assert(bp >= 0 && bq >= 0);
    let pc = state.condition.spec_progress_modifier().spec_value();
    let ven = 100 + state.buffs.progress.spec_efficiency_mod();
    let pe = kind.spec_effective_progress_efficiency(state);
    assert(pe >= 0);
    assert(bp * pc * ven * pe >= 0) by (nonlinear_arith)
        requires
            bp >= 0,
            pc >= 0,
            ven >= 0,
            pe >= 0,
    ;
    let qc = state.condition.spec_quality_modifier().spec_value();
    let qe = kind.spec_quality_efficiency(state.buffs.quality.inner_quiet.0);
    let qm = state.buffs.quality.spec_efficiency_mod();
    assert(bq * qc * qe * qm >= 0) by (nonlinear_arith)
        requires
            bq >= 0,
            qc >= 0,
            qe >= 0,
            qm >= 0,
    ;
}

/// In a valid state whose quality and progress leave room for the action's gains, the
/// change the action (or its failure) makes can be applied without leaving the ranges
/// of the state's numbers, and adds no more than the action's quality and progress.
pub proof fn law_delta_fits_valid_state<C: Condition, M: QualityMap>(
    kind: FfxivCraftingActions,
    failed: bool,
    state: CraftingState<C, M>,
)
    requires
        state.valid(),
        state.curr_quality + kind.spec_quality(state) <= u32::MAX,
        state.curr_progress + kind.spec_progress(state) <= u32::MAX,
    ensures
        state.spec_can_apply(kind.spec_delta(failed, state)),
        kind.spec_delta(failed, state).added_quality <= kind.spec_quality(state),
        kind.spec_delta(failed, state).added_progress <= kind.spec_progress(state),
{
    lemma_action_durability_range(kind, state.buffs, state.condition);
    lemma_added_cp_range(kind, state);
    lemma_gains_in_range(kind, state);
    let b = state.buffs.durability;
    assert(b.spec_repair() == 0 || b.spec_repair() == 5);
    let d = kind.spec_delta(failed, state);
    assert(d.buff_repair == 0 || d.buff_repair == 5);
}

/// A completed outcome adds no more quality than the action makes.
pub proof fn lemma_completed_quality_fits<C: Condition, M: QualityMap>(
    kind: FfxivCraftingActions,
    failed: bool,
    state: CraftingState<C, M>,
)
    requires
        state.problem_def.computable(),
    ensures
        kind.spec_delta(failed, state).added_quality <= kind.spec_quality(state),
        kind.spec_outcome(failed, state).spec_outcome().added_quality == kind.spec_delta(
            failed,
            state,
        ).added_quality,
{
    lemma_gains_in_range(kind, state);
}

impl FfxivCraftingActions {
    /// Whether the action can be used in `state`, CP aside.
    pub open spec fn spec_can_execute<C: Condition, M: QualityMap>(
        self,
        state: CraftingState<C, M>,
    ) -> bool {
        &&& self.spec_needs_first_step() ==> state.first_step
        &&& self == FfxivCraftingActions::TrainedEye ==> !C::spec_expert()
            && state.problem_def.character.char_level
            - state.problem_def.recipe.required_character_level >= 10
        &&& self.spec_needs_good_or_excellent() ==> good_or_excellent(state.condition)
            || state.buffs.heart_and_soul.spec_active()
        &&& self.spec_needs_no_waste_not() ==> !state.buffs.durability.waste_not.spec_active()
        &&& self == FfxivCraftingActions::ByregotsBlessing
            ==> state.buffs.quality.inner_quiet.spec_active()
        &&& self == FfxivCraftingActions::TrainedFinesse ==> state.buffs.quality.inner_quiet.0
            == 10
        &&& self.spec_is_specialist() ==> state.buffs.specialist_actions is Availalble
    }

    /// The CP the action adds: Tricks of the Trade restores 20 in a Good or Excellent
    /// condition; every other action costs its CP cost scaled by the condition's CP
    /// modifier (in percent), rounded down.
    pub open spec fn spec_added_cp<C: Condition, M: QualityMap>(
        self,
        state: CraftingState<C, M>,
    ) -> int {
        if self == FfxivCraftingActions::TricksOfTheTrade {
            if good_or_excellent(state.condition) {
                20
            } else {
                0
            }
        } else {
            -(self.spec_cp_cost(state.buffs.combo.basic_touch)
                * state.condition.spec_cp_usage_modifier().spec_value() / 100)
        }
    }

    /// The durability the action uses or restores: a restoration as it is; a cost
    /// scaled by the condition's durability modifier and the Waste Not modifier (both
    /// in percent), rounded away from zero.
    pub open spec fn spec_action_durability<C: Condition>(self, buffs: BuffState, condition: C) -> int {
        let u = self.spec_durability_usage();
        if u >= 0 {
            u as int
        } else {
            let cost = (-u) * condition.spec_durability_modifier().spec_value()
                * buffs.durability.spec_durability_cost_mod();
            -((cost + 9999) / 10000)
        }
    }

    /// The progress efficiency of the action in `state`: halved (rounded down) for
    /// Groundwork when durability would run out, plus the bonus of Muscle Memory.
    pub open spec fn spec_effective_progress_efficiency<C: Condition, M: QualityMap>(
        self,
        state: CraftingState<C, M>,
    ) -> int {
        let e = self.spec_progress_efficiency(state.problem_def.character.char_level);
        let halved = self == FfxivCraftingActions::Groundwork && state.curr_durability
            + self.spec_action_durability(state.buffs, state.condition) < 0;
        (if halved {
            (e / 2) as int
        } else {
            e as int
        }) + state.buffs.progress.spec_bonus_efficiency()
    }

    /// The progress the action makes: base progress, times the condition's progress
    /// modifier, times 100 plus Veneration's modifier, times the efficiency, all over a
    /// million, rounded down and capped at the largest `u32`.
    pub open spec fn spec_progress<C: Condition, M: QualityMap>(
        self,
        state: CraftingState<C, M>,
    ) -> int {
        if self.spec_progress_efficiency(state.problem_def.character.char_level) == 0 {
            0
        } else {
            sat_u32(
                state.problem_def.spec_base_progress()
                    * state.condition.spec_progress_modifier().spec_value() * (100
                    + state.buffs.progress.spec_efficiency_mod())
                    * self.spec_effective_progress_efficiency(state) / 1_000_000,
            )
        }
    }

    /// The quality the action adds: Trained Eye adds the recipe's maximum quality;
    /// otherwise base quality, times the condition's quality modifier, times the
    /// efficiency, times the quality buffs' multiplier, all over a million, rounded
    /// down and capped at the largest `u32`.
    pub open spec fn spec_quality<C: Condition, M: QualityMap>(
        self,
        state: CraftingState<C, M>,
    ) -> int {
        if self == FfxivCraftingActions::TrainedEye {
            state.problem_def.recipe.max_quality as int
        } else if self.spec_quality_efficiency(state.buffs.quality.inner_quiet.0) == 0 {
            0
        } else {
            sat_u32(
                state.problem_def.spec_base_quality()
                    * state.condition.spec_quality_modifier().spec_value()
                    * self.spec_quality_efficiency(state.buffs.quality.inner_quiet.0)
                    * state.buffs.quality.spec_efficiency_mod() / 1_000_000,
            )
        }
    }

    /// The buffs after the action consumes what it uses: touches consume Great Strides,
    /// syntheses consume Muscle Memory, an action that needs a Good or Excellent
    /// condition consumes Heart and Soul outside one, and Manipulation consumes itself.
    pub open spec fn spec_deactivated<C: Condition, M: QualityMap>(
        self,
        state: CraftingState<C, M>,
        b: BuffState,
    ) -> BuffState {
        let b1 = if self.spec_consumes_great_strides() {
            BuffState {
                quality: crate::buffs::quality::QualityBuffs {
                    great_strides: GreatStridesBuff(0),
                    ..b.quality
                },
                ..b
            }
        } else {
            b
        };
        let b2 = if self.spec_consumes_muscle_memory() {
            BuffState {
                progress: ProgressBuffs { muscle_memory: MuscleMemoryBuff(0), ..b1.progress },
                ..b1
            }
        } else {
            b1
        };
        let b3 = if self.spec_needs_good_or_excellent() && !good_or_excellent(state.condition) {
            BuffState { heart_and_soul: HeartAndSoulBuff::Inactive, ..b2 }
        } else {
            b2
        };
        if self == FfxivCraftingActions::Manipulation {
            BuffState {
                durability: crate::buffs::durability::DurabilityBuffs {
                    manipulation: ManipulationBuff(0),
                    ..b3.durability
                },
                ..b3
            }
        } else {
            b3
        }
    }

    /// Inner Quiet after the action: Byregot's Blessing uses up the stacks; other
    /// actions add their stacks, up to ten.
    pub open spec fn spec_inner_quiet_after(self, iq: InnerQuiet) -> InnerQuiet {
        if self == FfxivCraftingActions::ByregotsBlessing {
            InnerQuiet(0)
        } else if self.spec_inner_quiet_gain() > 0 {
            iq.spec_plus(self.spec_inner_quiet_gain())
        } else {
            iq
        }
    }

    /// The buffs after the action grants what it grants, activated with the condition's
    /// status bonus.
    pub open spec fn spec_buffed<C: Condition, M: QualityMap>(
        self,
        state: CraftingState<C, M>,
        b: BuffState,
    ) -> BuffState {
        let bonus = status_bonus(state.condition);
        let b1 = BuffState {
            quality: crate::buffs::quality::QualityBuffs {
                inner_quiet: self.spec_inner_quiet_after(b.quality.inner_quiet),
                ..b.quality
            },
            ..b
        };
        match self {
            FfxivCraftingActions::Veneration => BuffState {
                progress: ProgressBuffs {
                    veneration: b1.progress.veneration.spec_activated(bonus),
                    ..b1.progress
                },
                ..b1
            },
            FfxivCraftingActions::MuscleMemory => BuffState {
                progress: ProgressBuffs {
                    muscle_memory: b1.progress.muscle_memory.spec_activated(bonus),
                    ..b1.progress
                },
                ..b1
            },
            FfxivCraftingActions::FinalAppraisal => BuffState {
                progress: ProgressBuffs {
                    final_appraisal: b1.progress.final_appraisal.spec_activated(bonus),
                    ..b1.progress
                },
                ..b1
            },
            FfxivCraftingActions::GreatStrides => BuffState {
                quality: crate::buffs::quality::QualityBuffs {
                    great_strides: b1.quality.great_strides.spec_activated(bonus),
                    ..b1.quality
                },
                ..b1
            },
            FfxivCraftingActions::Innovation => BuffState {
                quality: crate::buffs::quality::QualityBuffs {
                    innovation: b1.quality.innovation.spec_activated(bonus),
                    ..b1.quality
                },
                ..b1
            },
            FfxivCraftingActions::WasteNot => BuffState {
                durability: crate::buffs::durability::DurabilityBuffs {
                    waste_not: b1.durability.waste_not.spec_activated(bonus),
                    ..b1.durability
                },
                ..b1
            },
            FfxivCraftingActions::WasteNot2 => BuffState {
                durability: crate::buffs::durability::DurabilityBuffs {
                    waste_not: b1.durability.waste_not.spec_activated((4 + bonus) as u8),
                    ..b1.durability
                },
                ..b1
            },
            FfxivCraftingActions::Manipulation => BuffState {
                durability: crate::buffs::durability::DurabilityBuffs {
                    manipulation: b1.durability.manipulation.spec_activated(bonus),
                    ..b1.durability
                },
                ..b1
            },
            FfxivCraftingActions::Observe => BuffState {
                combo: crate::buffs::combo::ComboTriggers {
                    observation: ObservationCombo::Active,
                    ..b1.combo
                },
                ..b1
            },
            FfxivCraftingActions::BasicTouch => BuffState {
                combo: crate::buffs::combo::ComboTriggers {
                    basic_touch: BasicTouchCombo::BasicTouch,
                    ..b1.combo
                },
                ..b1
            },
            FfxivCraftingActions::StandardTouch => if state.buffs.combo.basic_touch
                == BasicTouchCombo::BasicTouch {
                BuffState {
                    combo: crate::buffs::combo::ComboTriggers {
                        basic_touch: BasicTouchCombo::StandardTouch,
                        ..b1.combo
                    },
                    ..b1
                }
            } else {
                b1
            },
            FfxivCraftingActions::HeartAndSoul => BuffState {
                specialist_actions: b1.specialist_actions.spec_spend(),
                heart_and_soul: HeartAndSoulBuff::Active,
                ..b1
            },
            FfxivCraftingActions::CarefulObservation => BuffState {
                specialist_actions: b1.specialist_actions.spec_spend(),
                ..b1
            },
            _ => b1,
        }
    }

    /// The change the action makes to `state`; `failed` is the change of a failed
    /// attempt, which costs the CP and durability but makes no progress or quality,
    /// and changes no buff beyond the passing of the turn.
    ///
    /// In order: Final Appraisal may cut the progress (and is then consumed), the
    /// action consumes buffs, then either a turn passes (buffs repair, then tick down)
    /// or time stops (only combos end), and finally the action grants its buffs.
    pub open spec fn spec_delta<C: Condition, M: QualityMap>(
        self,
        failed: bool,
        state: CraftingState<C, M>,
    ) -> StateDelta {
        let raw: int = if failed {
            0
        } else {
            self.spec_progress(state)
        };
        let fa = state.buffs.progress.final_appraisal;
        let max = state.problem_def.recipe.max_progress;
        let triggers = fa.spec_triggers(state.curr_progress, max, raw as u32);
        let b0 = if triggers {
            BuffState {
                progress: ProgressBuffs { final_appraisal: FinalAppraisalBuff(0), ..state.buffs.progress },
                ..state.buffs
            }
        } else {
            state.buffs
        };
        let b1 = if failed {
            b0
        } else {
            self.spec_deactivated(state, b0)
        };
        let tp = failed || !self.spec_stops_time();
        let b2 = if tp {
            b1.spec_decayed()
        } else {
            BuffState { combo: b1.combo.spec_decayed(), ..b1 }
        };
        StateDelta {
            added_quality: (if failed {
                0
            } else {
                self.spec_quality(state)
            }) as u32,
            added_progress: fa.spec_appraised(state.curr_progress, max, raw as u32) as u32,
            new_buffs: if failed {
                b2
            } else {
                self.spec_buffed(state, b2)
            },
            action_durability: self.spec_action_durability(state.buffs, state.condition) as i8,
            buff_repair: if tp {
                b1.durability.spec_repair()
            } else {
                0
            },
            added_cp: self.spec_added_cp(state) as i16,
            time_passed: tp,
            final_appraisal_triggered: triggers,
        }
    }

    /// What the action (or a failed attempt at it) leads to from `state`.
    pub open spec fn spec_outcome<C: Condition, M: QualityMap>(
        self,
        failed: bool,
        state: CraftingState<C, M>,
    ) -> ActionOutcome {
        ActionOutcome::spec_from_delta_state(self.spec_delta(failed, state), state)
    }

    /// Whether the action has the CP it needs in `state`.
    pub open spec fn spec_cp_ok<C: Condition, M: QualityMap>(self, state: CraftingState<C, M>) -> bool {
        state.curr_cp + self.spec_added_cp(state) >= 0
    }

    /// The percentage chance that the action fails in `state`: focused actions cannot
    /// fail right after Observe; otherwise the base rate less the condition's success
    /// bonus (Centered), down to zero.
    pub open spec fn spec_fail_rate<C: Condition, M: QualityMap>(
        self,
        state: CraftingState<C, M>,
    ) -> u8 {
        let base = self.spec_base_fail_rate();
        let centered = state.condition.spec_success_rate_modifier().spec_value();
        if self.spec_is_focused() {
            if state.buffs.combo.observation.spec_active() {
                0
            } else {
                base
            }
        } else if centered >= base {
            0
        } else {
            (base - centered) as u8
        }
    }

    /// Whether the percentile roll `roll` makes the action fail in `state`: exactly
    /// the rolls below the fail rate do.
    pub open spec fn spec_roll_fails<C: Condition, M: QualityMap>(
        self,
        state: CraftingState<C, M>,
        roll: int,
    ) -> bool {
        roll < self.spec_fail_rate(state)
    }

    /// Whether the action can be used in `state`, CP aside.
    pub fn can_execute<C: Condition, M: QualityMap>(self, state: &CraftingState<C, M>) -> (r: bool)
        requires
            state.buffs.wf(),
        ensures
            r == self.spec_can_execute(*state),
    {
        let first = !self.needs_first_step() || state.first_step;
        let eye = !matches!(self, FfxivCraftingActions::TrainedEye) || (!C::expert()
            && state.problem_def.character.char_level as i16
            - state.problem_def.recipe.required_character_level as i16 >= 10);
        let good = !self.needs_good_or_excellent() || state.condition.is_good()
            || state.condition.is_excellent() || state.buffs.heart_and_soul.is_active();
        let wn = !self.needs_no_waste_not() || !state.buffs.durability.waste_not.is_active();
        let byregot = !matches!(self, FfxivCraftingActions::ByregotsBlessing)
            || state.buffs.quality.inner_quiet.is_active();
        let finesse = !matches!(self, FfxivCraftingActions::TrainedFinesse)
            || state.buffs.quality.inner_quiet.stacks() == 10;
        let specialist = !self.is_specialist()
            || state.buffs.specialist_actions.actions_available();
        first && eye && good && wn && byregot && finesse && specialist
    }

    /// The CP the action adds in `state` (negative for a cost).
    pub fn added_cp<C: Condition, M: QualityMap>(self, state: &CraftingState<C, M>) -> (r: i16)
        ensures
            r == self.spec_added_cp(*state),
    {
        if matches!(self, FfxivCraftingActions::TricksOfTheTrade) {
            if state.condition.is_good() || state.condition.is_excellent() {
                20
            } else {
                0
            }
        } else {
            let cost = self.cp_cost(state.buffs.combo.basic_touch) as u32;
            let cp_mod = state.condition.to_cp_usage_modifier().value() as u32;
            assert(cost * cp_mod <= 250 * 100) by (nonlinear_arith)
                requires
                    cost <= 250,
                    cp_mod <= 100,
            ;
            -((cost * cp_mod / 100) as i16)
        }
    }

    /// The durability the action uses (negative) or restores (positive).
    pub fn action_durability<C: Condition>(self, buffs: &BuffState, condition: &C) -> (r: i8)
        ensures
            r == self.spec_action_durability(*buffs, *condition),
            -20 <= r <= 30,
    {
        let u = self.durability_usage();
        if u >= 0 {
            u
        } else {
            let base = (-u) as u32;
            let cond = condition.to_durability_modifier().value() as u32;
            let waste_not = buffs.durability.durability_cost_mod() as u32;
            assert(cond <= 100 && waste_not <= 100);
            assert(base * cond <= 20 * 100) by (nonlinear_arith)
                requires
                    base <= 20,
                    cond <= 100,
            ;
            let t = base * cond;
            assert(t * waste_not <= 20 * 100 * 100) by (nonlinear_arith)
                requires
                    t <= 20 * 100,
                    waste_not <= 100,
            ;
            let cost = t * waste_not;
            -(((cost + 9999) / 10000) as i8)
        }
    }

    /// The progress the action makes in `state`, before Final Appraisal.
    pub fn progress<C: Condition, M: QualityMap>(self, state: &CraftingState<C, M>) -> (r: u32)
        requires
            state.problem_def.computable(),
        ensures
            r == self.spec_progress(*state),
    {
        let e = self.progress_efficiency(state.problem_def.character.char_level);
        if e == 0 {
            return 0;
        }
        let dur = self.action_durability(&state.buffs, &state.condition);
        let halved = matches!(self, FfxivCraftingActions::Groundwork)
            && (state.curr_durability as i16 + dur as i16) < 0;
        let e1: u16 = if halved {
            e / 2
        } else {
            e
        };
        let eff = e1 as u128 + state.buffs.progress.bonus_efficiency() as u128;
        let base = state.base_progress() as u128;
        let cond = state.condition.to_progress_modifier().value() as u128;
        let ven = 100 + state.buffs.progress.efficiency_mod() as u128;
        assert(base * cond <= 0x1_0000_0000u128 * 0x10000) by (nonlinear_arith)
            requires
                base <= 0xFFFF_FFFF,
                cond <= 0xFFFF,
        ;
        let t1 = base * cond;
        assert(t1 * ven <= 0x1_0000_0000u128 * 0x10000 * 0x20000) by (nonlinear_arith)
            requires
                t1 <= 0x1_0000_0000u128 * 0x10000,
                ven <= 0xFFFF + 100,
        ;
        let t2 = t1 * ven;
        assert(t2 * eff <= 0x1_0000_0000u128 * 0x10000 * 0x20000 * 0x20000) by (nonlinear_arith)
            requires
                t2 <= 0x1_0000_0000u128 * 0x10000 * 0x20000,
                eff <= 0xFFFF + 0xFFFF,
        ;
        let total = t2 * eff / 1_000_000;
        if total > 0xFFFF_FFFF {
            0xFFFF_FFFF
        } else {
            total as u32
        }
    }

    /// The quality the action adds in `state`.
    pub fn quality<C: Condition, M: QualityMap>(self, state: &CraftingState<C, M>) -> (r: u32)
        requires
            state.problem_def.computable(),
            state.buffs.wf(),
        ensures
            r == self.spec_quality(*state),
    {
        if matches!(self, FfxivCraftingActions::TrainedEye) {
            return state.problem_def.recipe.max_quality;
        }
        let e = self.quality_efficiency(state.buffs.quality.inner_quiet.stacks());
        if e == 0 {
            return 0;
        }
        let base = state.base_quality() as u128;
        let cond = state.condition.to_quality_modifier().value() as u128;
        let eff = e as u128;
        let buffs = state.buffs.quality.efficiency_mod() as u128;
        assert(base * cond <= 0x1_0000_0000u128 * 0x10000) by (nonlinear_arith)
            requires
                base <= 0xFFFF_FFFF,
                cond <= 0xFFFF,
        ;
        let t1 = base * cond;
        assert(t1 * eff <= 0x1_0000_0000u128 * 0x10000 * 0x10000) by (nonlinear_arith)
            requires
                t1 <= 0x1_0000_0000u128 * 0x10000,
                eff <= 0xFFFF,
        ;
        let t2 = t1 * eff;
        assert(t2 * buffs <= 0x1_0000_0000u128 * 0x10000 * 0x10000 * 0x1000) by (nonlinear_arith)
            requires
                t2 <= 0x1_0000_0000u128 * 0x10000 * 0x10000,
                buffs <= 500,
        ;
        let total = t2 * buffs / 1_000_000;
        if total > 0xFFFF_FFFF {
            0xFFFF_FFFF
        } else {
            total as u32
        }
    }

    /// Consumes in `b` the buffs the action uses up.
    pub fn deactivate<C: Condition, M: QualityMap>(
        self,
        state: &CraftingState<C, M>,
        b: &mut BuffState,
    )
        requires
            old(b).wf(),
        ensures
            *final(b) == self.spec_deactivated(*state, *old(b)),
            final(b).wf(),
    {
        if self.consumes_great_strides() {
            b.quality.great_strides = GreatStridesBuff(0);
        }
        if self.consumes_muscle_memory() {
            b.progress.muscle_memory = MuscleMemoryBuff(0);
        }
        if self.needs_good_or_excellent() && !(state.condition.is_good()
            || state.condition.is_excellent()) {
            b.heart_and_soul = HeartAndSoulBuff::Inactive;
        }
        if matches!(self, FfxivCraftingActions::Manipulation) {
            b.durability.manipulation = ManipulationBuff(0);
        }
    }

    /// Grants in `b` the buffs the action grants.
    pub fn buff<C: Condition, M: QualityMap>(self, state: &CraftingState<C, M>, b: &mut BuffState)
        requires
            old(b).wf(),
        ensures
            *final(b) == self.spec_buffed(*state, *old(b)),
            final(b).wf(),
    {
        let bonus = state.condition.to_status_duration_modifier().value();
        if matches!(self, FfxivCraftingActions::ByregotsBlessing) {
            b.quality.inner_quiet = InnerQuiet(0);
        } else {
            let gain = self.inner_quiet_gain();
            if gain > 0 {
                b.quality.inner_quiet = b.quality.inner_quiet.plus(gain);
            }
        }
        match self {
            FfxivCraftingActions::Veneration => {
                b.progress.veneration = b.progress.veneration.activate(bonus);
            },
            FfxivCraftingActions::MuscleMemory => {
                b.progress.muscle_memory = b.progress.muscle_memory.activate(bonus);
            },
            FfxivCraftingActions::FinalAppraisal => {
                b.progress.final_appraisal = b.progress.final_appraisal.activate(bonus);
            },
            FfxivCraftingActions::GreatStrides => {
                b.quality.great_strides = b.quality.great_strides.activate(bonus);
            },
            FfxivCraftingActions::Innovation => {
                b.quality.innovation = b.quality.innovation.activate(bonus);
            },
            FfxivCraftingActions::WasteNot => {
                b.durability.waste_not = b.durability.waste_not.activate(bonus);
            },
            FfxivCraftingActions::WasteNot2 => {
                b.durability.waste_not = b.durability.waste_not.activate(4 + bonus);
            },
            FfxivCraftingActions::Manipulation => {
                b.durability.manipulation = b.durability.manipulation.activate(bonus);
            },
            FfxivCraftingActions::Observe => {
                b.combo.observation = ObservationCombo::Active;
            },
            FfxivCraftingActions::BasicTouch => {
                b.combo.basic_touch = BasicTouchCombo::BasicTouch;
            },
            FfxivCraftingActions::StandardTouch => {
                if matches!(state.buffs.combo.basic_touch, BasicTouchCombo::BasicTouch) {
                    b.combo.basic_touch = BasicTouchCombo::StandardTouch;
                }
            },
            FfxivCraftingActions::HeartAndSoul => {
                b.specialist_actions = b.specialist_actions.spend();
                b.heart_and_soul = HeartAndSoulBuff::Active;
            },
            FfxivCraftingActions::CarefulObservation => {
                b.specialist_actions = b.specialist_actions.spend();
            },
            _ => {},
        }
    }

    /// The change the action (or a failed attempt at it) makes to `state`.
    pub fn delta<C: Condition, M: QualityMap>(self, failed: bool, state: &CraftingState<C, M>) -> (r:
        StateDelta)
        requires
            state.actionable(),
        ensures
            r == self.spec_delta(failed, *state),
            r.new_buffs.wf(),
            r.added_cp == self.spec_added_cp(*state),
            r.action_durability == self.spec_action_durability(state.buffs, state.condition),
    {
        let raw = if failed {
            0
        } else {
            self.progress(state)
        };
        let mut buffs = state.buffs;
        let added_progress = state.buffs.progress.final_appraisal.handle_progress(
            state,
            raw,
            &mut buffs,
        );
        let triggered = added_progress < raw;
        if !failed {
            self.deactivate(state, &mut buffs);
        }
        let time_passed = failed || !self.stops_time();
        let mut repair: i8 = 0;
        if time_passed {
            repair = buffs.durability.repair();
            buffs.decay();
        } else {
            buffs.combo.decay();
        }
        if !failed {
            self.buff(state, &mut buffs);
        }
        StateDelta {
            added_quality: if failed {
                0
            } else {
                self.quality(state)
            },
            added_progress,
            new_buffs: buffs,
            action_durability: self.action_durability(&state.buffs, &state.condition),
            buff_repair: repair,
            added_cp: self.added_cp(state),
            time_passed,
            final_appraisal_triggered: triggered,
        }
    }

    /// Works out what the action would do in `state`: `Ok` with the outcome if it has
    /// the CP it needs and can be used, otherwise the error that says which check
    /// failed, carrying the outcome it would have had.
    pub fn prospective_act<C: Condition, M: QualityMap>(self, state: &CraftingState<C, M>) -> (r:
        super::errors::ActionResult)
        requires
            state.actionable(),
        ensures
            r == super::errors::ActionError::spec_from_checks(
                self.spec_cp_ok(*state),
                self.spec_can_execute(*state),
                self.spec_outcome(false, *state),
            ),
    {
        let delta = self.delta(false, state);
        let outcome = ActionOutcome::from_delta_state(delta, state);
        let cp_ok = state.curr_cp as i32 + delta.added_cp as i32 >= 0;
        super::errors::ActionError::from_checks(cp_ok, self.can_execute(state), outcome)
    }

    /// Executes the action in a state where it has the CP it needs and can be used.
    pub fn act<C: Condition, M: QualityMap>(self, state: &CraftingState<C, M>) -> (r: ActionOutcome)
        requires
            state.actionable(),
            self.spec_cp_ok(*state),
            self.spec_can_execute(*state),
        ensures
            r == self.spec_outcome(false, *state),
    {
        ActionOutcome::from_delta_state(self.delta(false, state), state)
    }

    /// The percentage chance that the action fails in `state`.
    pub fn fail_rate<C: Condition, M: QualityMap>(self, state: &CraftingState<C, M>) -> (r: u8)
        ensures
            r == self.spec_fail_rate(*state),
            r <= 50,
    {
        let base = self.base_fail_rate();
        let centered = state.condition.to_success_rate_modifier().value();
        if self.is_focused() {
            if state.buffs.combo.observation.is_active() {
                0
            } else {
                base
            }
        } else if centered >= base {
            0
        } else {
            base - centered
        }
    }
}

} // verus!
