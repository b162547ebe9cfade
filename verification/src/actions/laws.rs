//! Properties of the rules that hold for every action and every state.
use super::collection::FfxivCraftingActions;
use super::errors::ActionError;
use super::engine::sat_u32;
use super::{ActionOutcome, StateDelta};
use crate::buffs::combo::BasicTouchCombo;
use crate::buffs::durability::{DurabilityBuffs, WasteNot};
use crate::buffs::progress::ProgressBuffs;
use crate::buffs::quality::QualityBuffs;
use crate::conditions::DurabilityModifier;
use crate::buffs::{Buff, DurationalBuff};
use crate::conditions::Condition;
use crate::quality_map::QualityMap;
use crate::CraftingState;
use vstd::prelude::*;
use vstd::set_lib::{lemma_int_range, set_int_range};

verus! {

/// Executing an action that has the CP it needs and can be used gives exactly the
/// outcome that executing it prospectively reports; otherwise the prospective result is
/// an error carrying that same outcome.
pub proof fn law_act_matches_prospective<C: Condition, M: QualityMap>(
    kind: FfxivCraftingActions,
    failed: bool,
    state: CraftingState<C, M>,
)
    ensures
        kind.spec_cp_ok(state) && kind.spec_can_execute(state) ==> ActionError::spec_from_checks(
            kind.spec_cp_ok(state),
            kind.spec_can_execute(state),
            kind.spec_outcome(failed, state),
        ) == Ok::<ActionOutcome, ActionError>(kind.spec_outcome(failed, state)),
        !(kind.spec_cp_ok(state) && kind.spec_can_execute(state)) ==> ActionError::spec_from_checks(
            kind.spec_cp_ok(state),
            kind.spec_can_execute(state),
            kind.spec_outcome(failed, state),
        ) is Err,
{
}

/// Every action, succeeded or failed, leaves well-formed buffs: Inner Quiet at most
/// ten stacks, an active Waste Not with turns left, and at most three delineations.
pub proof fn law_buffs_stay_well_formed<C: Condition, M: QualityMap>(
    kind: FfxivCraftingActions,
    failed: bool,
    state: CraftingState<C, M>,
)
    requires
        state.actionable(),
    ensures
        kind.spec_delta(failed, state).new_buffs.wf(),
{
    let max = state.problem_def.recipe.max_progress;
    let raw: int = if failed { 0 } else { kind.spec_progress(state) };
    let fa = state.buffs.progress.final_appraisal;
    let triggers = fa.spec_triggers(state.curr_progress, max, raw as u32);
    let b0 = if triggers {
        crate::buffs::BuffState {
            progress: crate::buffs::progress::ProgressBuffs {
                final_appraisal: crate::buffs::progress::FinalAppraisal(0),
                ..state.buffs.progress
            },
            ..state.buffs
        }
    } else {
        state.buffs
    };
    assert(b0.wf());
    let b1 = if failed { b0 } else { kind.spec_deactivated(state, b0) };
    assert(b1.wf());
    b1.durability.waste_not.lemma_decayed();
    let tp = failed || !kind.spec_stops_time();
    let b2 = if tp {
        b1.spec_decayed()
    } else {
        crate::buffs::BuffState { combo: b1.combo.spec_decayed(), ..b1 }
    };
    assert(b2.wf());
    if !failed {
        let bonus = super::engine::status_bonus(state.condition);
        assert(bonus == 0 || bonus == 2);
        b2.durability.waste_not.lemma_activated(bonus);
        b2.durability.waste_not.lemma_activated((4 + bonus) as u8);
    }
}

/// Applying a delta never takes durability above the recipe's durability or CP above
/// the crafter's pool, and the first step is over once a turn has passed.
pub proof fn law_apply_respects_caps<C: Condition, M: QualityMap>(
    state: CraftingState<C, M>,
    delta: StateDelta,
)
    ensures
        state.spec_can_apply(delta) ==> state.spec_apply(delta).curr_durability
            <= state.problem_def.recipe.max_durability,
        state.spec_can_apply(delta) && state.problem_def.character.max_cp >= i16::MIN
            ==> state.spec_apply(delta).curr_cp <= state.problem_def.character.max_cp,
        delta.time_passed ==> !state.spec_apply(delta).first_step,
        state.spec_apply(delta).condition == state.condition,
{
}

/// A failed attempt costs the same CP and durability as the action, but makes no
/// progress and no quality, and lets the turn pass.
pub proof fn law_failure_costs_like_success<C: Condition, M: QualityMap>(
    kind: FfxivCraftingActions,
    state: CraftingState<C, M>,
)
    ensures
        kind.spec_delta(true, state).added_cp == kind.spec_delta(false, state).added_cp,
        kind.spec_delta(true, state).action_durability == kind.spec_delta(
            false,
            state,
        ).action_durability,
        kind.spec_delta(true, state).added_progress == 0 || state.curr_progress
            >= state.problem_def.recipe.max_progress,
        kind.spec_delta(true, state).added_quality == 0,
        kind.spec_delta(true, state).time_passed,
{
}

/// A craft that ends (completes or fails) gets no durability back from buffs.
pub proof fn law_ending_outcomes_have_no_repair<C: Condition, M: QualityMap>(
    kind: FfxivCraftingActions,
    failed: bool,
    state: CraftingState<C, M>,
)
    ensures
        kind.spec_outcome(failed, state) matches ActionOutcome::Completed(d) ==> d.buff_repair == 0,
        kind.spec_outcome(failed, state) matches ActionOutcome::Failure(d) ==> d.buff_repair == 0,
{
}

/// While Final Appraisal is active, no action completes a craft in progress: the
/// progress stops one point short and the buff is consumed.
pub proof fn law_final_appraisal_prevents_completion<C: Condition, M: QualityMap>(
    kind: FfxivCraftingActions,
    failed: bool,
    state: CraftingState<C, M>,
)
    requires
        state.curr_progress < state.problem_def.recipe.max_progress,
        state.buffs.progress.final_appraisal.spec_active(),
    ensures
        !(kind.spec_outcome(failed, state) is Completed),
        kind.spec_delta(failed, state).final_appraisal_triggered ==> state.curr_progress
            + kind.spec_delta(failed, state).added_progress == state.problem_def.recipe.max_progress
            - 1,
{
}

/// An action that takes no time leaves every buff that ticks down as it was, apart
/// from ending the combos and what the action itself consumes or grants; and it gets
/// no repair from Manipulation.
pub proof fn law_time_stop_freezes_buffs<C: Condition, M: QualityMap>(
    kind: FfxivCraftingActions,
    state: CraftingState<C, M>,
)
    requires
        kind.spec_stops_time(),
    ensures
        !kind.spec_delta(false, state).time_passed,
        kind.spec_delta(false, state).buff_repair == 0,
        kind.spec_delta(false, state).new_buffs.quality == state.buffs.quality,
        kind.spec_delta(false, state).new_buffs.durability == state.buffs.durability,
        kind.spec_delta(false, state).new_buffs.progress.veneration
            == state.buffs.progress.veneration,
        kind.spec_delta(false, state).new_buffs.progress.muscle_memory
            == state.buffs.progress.muscle_memory,
        !kind.spec_delta(false, state).new_buffs.combo.basic_touch.spec_active(),
        !kind.spec_delta(false, state).new_buffs.combo.observation.spec_active(),
{
}

/// Only the specialist actions spend delineations, one each; no action gives one back.
pub proof fn law_delineations_only_decrease<C: Condition, M: QualityMap>(
    kind: FfxivCraftingActions,
    failed: bool,
    state: CraftingState<C, M>,
)
    ensures
        !failed && kind.spec_is_specialist() ==> kind.spec_delta(failed, state).new_buffs.specialist_actions
            == state.buffs.specialist_actions.spec_spend(),
        failed || !kind.spec_is_specialist() ==> kind.spec_delta(failed, state).new_buffs.specialist_actions
            == state.buffs.specialist_actions,
{
}

/// Casting Manipulation again gets no repair from the Manipulation it replaces: the
/// old buff is consumed before the end of the turn.
pub proof fn law_manipulation_recast_no_repair<C: Condition, M: QualityMap>(
    state: CraftingState<C, M>,
)
    ensures
        FfxivCraftingActions::Manipulation.spec_delta(false, state).buff_repair == 0,
        FfxivCraftingActions::Manipulation.spec_delta(false, state).new_buffs.durability.manipulation
            == state.buffs.durability.manipulation.spec_activated(
            super::engine::status_bonus(state.condition),
        ),
{
}

/// A successful synthesis consumes Muscle Memory, and a successful touch consumes
/// Great Strides.
pub proof fn law_buffs_consumed_by_their_actions<C: Condition, M: QualityMap>(
    kind: FfxivCraftingActions,
    state: CraftingState<C, M>,
)
    ensures
        kind.spec_consumes_muscle_memory() ==> !kind.spec_delta(
            false,
            state,
        ).new_buffs.progress.muscle_memory.spec_active(),
        kind.spec_consumes_great_strides() ==> !kind.spec_delta(
            false,
            state,
        ).new_buffs.quality.great_strides.spec_active(),
{
}

/// Trained Eye raises quality by the recipe's maximum quality, and Byregot's Blessing
/// uses up every Inner Quiet stack.
pub proof fn law_trained_eye_and_byregot<C: Condition, M: QualityMap>(state: CraftingState<C, M>)
    ensures
        FfxivCraftingActions::TrainedEye.spec_delta(false, state).added_quality
            == state.problem_def.recipe.max_quality,
        FfxivCraftingActions::ByregotsBlessing.spec_delta(false, state).new_buffs.quality.inner_quiet.0
            == 0,
{
}

/// Of the 100 percentile rolls, an action fails on exactly the rolls below its fail
/// rate: `fail_rate` of them, so it fails with a chance of `fail_rate` percent.
pub proof fn law_failure_odds_match_fail_rate<C: Condition, M: QualityMap>(
    kind: FfxivCraftingActions,
    state: CraftingState<C, M>,
)
    ensures
        Set::new(|p: int| 0 <= p < 100 && kind.spec_roll_fails(state, p)) == set_int_range(
            0,
            kind.spec_fail_rate(state) as int,
        ),
        Set::new(|p: int| 0 <= p < 100 && kind.spec_roll_fails(state, p)).len()
            == kind.spec_fail_rate(state),
{
    let failing = Set::new(|p: int| 0 <= p < 100 && kind.spec_roll_fails(state, p));
    assert(kind.spec_fail_rate(state) <= 50);
    assert(failing =~= set_int_range(0, kind.spec_fail_rate(state) as int));
    lemma_int_range(0, kind.spec_fail_rate(state) as int);
}

/// The quality buffs multiply the efficiency of quality actions by Inner Quiet's 100%
/// plus 10% a stack, times 100% plus 100% under Great Strides plus 50% under
/// Innovation, in percent and rounded down. So Innovation alone gives 150, Great
/// Strides alone 200, and both 250.
pub proof fn law_quality_buff_multiplier(q: QualityBuffs)
    ensures
        q.spec_efficiency_mod() == (100 + 10 * q.inner_quiet.0) * (100 + (if q.great_strides.0 > 0 {
            100int
        } else {
            0
        }) + (if q.innovation.0 > 0 {
            50int
        } else {
            0
        })) / 100,
        q.inner_quiet.0 == 0 && q.great_strides.0 == 0 ==> q.spec_efficiency_mod() == (if q.innovation.0
            > 0 {
            150int
        } else {
            100
        }),
        q.inner_quiet.0 == 0 && q.innovation.0 == 0 ==> q.spec_efficiency_mod() == (if q.great_strides.0
            > 0 {
            200int
        } else {
            100
        }),
{
    let iq: int = 100 + 10 * q.inner_quiet.0;
    let sum: int = 100 + (if q.great_strides.0 > 0 {
        100int
    } else {
        0
    }) + (if q.innovation.0 > 0 {
        50int
    } else {
        0
    });
    assert(q.inner_quiet.spec_efficiency_bonus() == iq);
    assert(sum == 100 + q.great_strides.spec_efficiency_mod() + q.innovation.spec_efficiency_mod());
    assert(0 <= iq * sum <= 2650 * 250) by (nonlinear_arith)
        requires
            100 <= iq <= 2650,
            100 <= sum <= 250,
    ;
    assert(0 <= iq * sum / 100 <= 2650 * 250);
    if q.inner_quiet.0 == 0 {
        assert(iq * sum == 100 * sum) by (nonlinear_arith)
            requires
                iq == 100,
        ;
    }
}

/// A quality action other than Trained Eye adds base quality times the condition's
/// quality modifier times its efficiency times the buffs' multiplier (Inner Quiet's
/// 100% plus 10% a stack, times 100% plus 100% under Great Strides plus 50% under
/// Innovation), over a million, rounded down; so with no Inner Quiet and no Great
/// Strides, Innovation raises it from a hundredth to 150 hundredths of the product.
pub proof fn law_touch_quality<C: Condition, M: QualityMap>(
    kind: FfxivCraftingActions,
    state: CraftingState<C, M>,
)
    requires
        kind != FfxivCraftingActions::TrainedEye,
    ensures
        kind.spec_quality(state) == sat_u32(
            state.problem_def.spec_base_quality() * state.condition.spec_quality_modifier().spec_value()
                * kind.spec_quality_efficiency(state.buffs.quality.inner_quiet.0) * ((100 + 10
                * state.buffs.quality.inner_quiet.0) * (100 + (if state.buffs.quality.great_strides.0 > 0 {
                100int
            } else {
                0
            }) + (if state.buffs.quality.innovation.0 > 0 {
                50int
            } else {
                0
            })) / 100) / 1_000_000,
        ),
        state.buffs.quality.inner_quiet.0 == 0 && state.buffs.quality.great_strides.0 == 0
            ==> kind.spec_quality(state) == sat_u32(
            state.problem_def.spec_base_quality() * state.condition.spec_quality_modifier().spec_value()
                * kind.spec_quality_efficiency(0) * (if state.buffs.quality.innovation.0 > 0 {
                150int
            } else {
                100
            }) / 1_000_000,
        ),
{
    law_quality_buff_multiplier(state.buffs.quality);
    let e = kind.spec_quality_efficiency(state.buffs.quality.inner_quiet.0) as int;
    let a = state.problem_def.spec_base_quality() * state.condition.spec_quality_modifier().spec_value();
    let m = state.buffs.quality.spec_efficiency_mod() as int;
    if e == 0 {
        assert(a * e * m == 0) by (nonlinear_arith)
            requires
                e == 0,
        ;
    }
}

/// The progress buffs add 50% to the efficiency of progress actions under Veneration
/// and nothing otherwise, and Muscle Memory adds 100 to the next synthesis's
/// efficiency.
pub proof fn law_progress_buff_efficiency(p: ProgressBuffs)
    ensures
        p.spec_efficiency_mod() == (if p.veneration.0 > 0 {
            50int
        } else {
            0
        }),
        p.spec_bonus_efficiency() == (if p.muscle_memory.0 > 0 {
            100int
        } else {
            0
        }),
{
}

/// A progress action makes base progress times the condition's progress modifier
/// times 150% under Veneration (100% otherwise) times its efficiency, over a million,
/// rounded down.
pub proof fn law_synthesis_progress<C: Condition, M: QualityMap>(
    kind: FfxivCraftingActions,
    state: CraftingState<C, M>,
)
    requires
        kind.spec_progress_efficiency(state.problem_def.character.char_level) > 0,
    ensures
        kind.spec_progress(state) == sat_u32(
            state.problem_def.spec_base_progress() * state.condition.spec_progress_modifier().spec_value()
                * (if state.buffs.progress.veneration.0 > 0 {
                150int
            } else {
                100
            }) * kind.spec_effective_progress_efficiency(state) / 1_000_000,
        ),
{
    law_progress_buff_efficiency(state.buffs.progress);
}

/// The touch combo: Standard Touch costs 18 CP right after Basic Touch and 32 otherwise,
/// and Advanced Touch costs 18 right after Standard Touch and 32 otherwise.
pub proof fn law_touch_combo_costs(combo: BasicTouchCombo)
    ensures
        FfxivCraftingActions::BasicTouch.spec_cp_cost(combo) == 18,
        FfxivCraftingActions::StandardTouch.spec_cp_cost(combo) == (if combo
            == BasicTouchCombo::BasicTouch {
            18int
        } else {
            32
        }),
        FfxivCraftingActions::AdvancedTouch.spec_cp_cost(combo) == (if combo
            == BasicTouchCombo::StandardTouch {
            18int
        } else {
            32
        }),
{
}

/// After a successful Basic Touch, Standard Touch costs what Basic Touch does (18 CP,
/// scaled by the condition), and after Basic Touch then Standard Touch, Advanced Touch
/// does too.
pub proof fn law_touch_combo_after_touches<C: Condition, M: QualityMap>(state: CraftingState<C, M>)
    ensures
        ({
            let next = state.spec_apply(FfxivCraftingActions::BasicTouch.spec_delta(false, state));
            &&& next.buffs.combo.basic_touch == BasicTouchCombo::BasicTouch
            &&& FfxivCraftingActions::StandardTouch.spec_added_cp(next) == -(18
                * state.condition.spec_cp_usage_modifier().spec_value() / 100)
            &&& FfxivCraftingActions::StandardTouch.spec_added_cp(next)
                == FfxivCraftingActions::BasicTouch.spec_added_cp(state)
        }),
        state.buffs.combo.basic_touch == BasicTouchCombo::BasicTouch ==> ({
            let next = state.spec_apply(FfxivCraftingActions::StandardTouch.spec_delta(false, state));
            &&& next.buffs.combo.basic_touch == BasicTouchCombo::StandardTouch
            &&& FfxivCraftingActions::AdvancedTouch.spec_added_cp(next) == -(18
                * state.condition.spec_cp_usage_modifier().spec_value() / 100)
        }),
{
}

/// Under Waste Not or Waste Not II actions pay half their durability cost, otherwise all
/// of it.
pub proof fn law_durability_cost_modifier(d: DurabilityBuffs)
    ensures
        d.spec_durability_cost_mod() == (if d.waste_not is Inactive {
            100int
        } else {
            50
        }),
{
}

/// An action that costs `c` durability pays `c` in a Normal condition without Waste
/// Not, half of it (rounded up) under Waste Not or in a Sturdy condition, and a quarter
/// of it (rounded up) under both; durability it restores is restored in full.
pub proof fn law_durability_costs<C: Condition>(
    kind: FfxivCraftingActions,
    buffs: crate::buffs::BuffState,
    condition: C,
)
    ensures
        kind.spec_durability_usage() >= 0 ==> kind.spec_action_durability(buffs, condition)
            == kind.spec_durability_usage(),
        ({
            let c = -kind.spec_durability_usage();
            let sturdy = condition.spec_durability_modifier() == DurabilityModifier::Sturdy;
            let waste_not = !(buffs.durability.waste_not is Inactive);
            c > 0 ==> kind.spec_action_durability(buffs, condition) == -(if !sturdy && !waste_not {
                c
            } else if sturdy && waste_not {
                (c + 3) / 4
            } else {
                (c + 1) / 2
            })
        }),
{
    let u = kind.spec_durability_usage() as int;
    if u < 0 {
        let c = -u;
        law_durability_cost_modifier(buffs.durability);
        let d = condition.spec_durability_modifier().spec_value() as int;
        let w = buffs.durability.spec_durability_cost_mod() as int;
        assert(d == 100 || d == 50);
        assert(c * d * w == c * 10000 || c * d * w == c * 5000 || c * d * w == c * 2500)
            by (nonlinear_arith)
            requires
                d == 100 || d == 50,
                w == 100 || w == 50,
        ;
        if d == 100 && w == 100 {
            assert(c * d * w == c * 10000) by (nonlinear_arith)
                requires
                    d == 100 && w == 100,
            ;
        } else if d == 50 && w == 50 {
            assert(c * d * w == c * 2500) by (nonlinear_arith)
                requires
                    d == 50 && w == 50,
            ;
        } else {
            assert(c * d * w == c * 5000) by (nonlinear_arith)
                requires
                    (d == 50 && w == 100) || (d == 100 && w == 50),
            ;
        }
    }
}

/// Manipulation restores 5 durability a turn while it is active, nothing otherwise.
pub proof fn law_manipulation_repair(d: DurabilityBuffs)
    ensures
        d.spec_repair() == (if d.manipulation.0 > 0 {
            5int
        } else {
            0
        }),
{
}

/// An action other than Tricks of the Trade costs its CP cost, halved (rounded down)
/// in a Pliant condition; Tricks of the Trade restores 20 CP in a Good or Excellent
/// condition and nothing otherwise.
pub proof fn law_cp_costs<C: Condition, M: QualityMap>(
    kind: FfxivCraftingActions,
    state: CraftingState<C, M>,
)
    ensures
        kind != FfxivCraftingActions::TricksOfTheTrade ==> kind.spec_added_cp(state) == -(if state.condition.spec_cp_usage_modifier() == crate::conditions::CpUsageModifier::Pliant {
            kind.spec_cp_cost(state.buffs.combo.basic_touch) as int / 2
        } else {
            kind.spec_cp_cost(state.buffs.combo.basic_touch) as int
        }),
        kind == FfxivCraftingActions::TricksOfTheTrade ==> kind.spec_added_cp(state) == (if state.condition.spec_is_good()
            || state.condition.spec_is_excellent() {
            20int
        } else {
            0
        }),
{
}

/// A buff an action grants lasts its base number of turns, plus the condition's
/// status bonus (2 when Primed): Great Strides 3, Innovation, Veneration and Waste Not
/// 4, Muscle Memory and Final Appraisal 5, Waste Not II and Manipulation 8.
pub proof fn law_buff_durations<C: Condition, M: QualityMap>(state: CraftingState<C, M>)
    ensures
        ({
            let bonus = state.condition.spec_status_duration_modifier().spec_value() as int;
            &&& FfxivCraftingActions::GreatStrides.spec_delta(false, state).new_buffs.quality.great_strides.0
                == 3 + bonus
            &&& FfxivCraftingActions::Innovation.spec_delta(false, state).new_buffs.quality.innovation.0
                == 4 + bonus
            &&& FfxivCraftingActions::Veneration.spec_delta(false, state).new_buffs.progress.veneration.0
                == 4 + bonus
            &&& FfxivCraftingActions::WasteNot.spec_delta(false, state).new_buffs.durability.waste_not.spec_turns()
                == 4 + bonus
            &&& FfxivCraftingActions::WasteNot2.spec_delta(false, state).new_buffs.durability.waste_not.spec_turns()
                == 8 + bonus
            &&& FfxivCraftingActions::MuscleMemory.spec_delta(false, state).new_buffs.progress.muscle_memory.0
                == 5 + bonus
            &&& FfxivCraftingActions::FinalAppraisal.spec_delta(false, state).new_buffs.progress.final_appraisal.0
                == 5 + bonus
            &&& FfxivCraftingActions::Manipulation.spec_delta(false, state).new_buffs.durability.manipulation.0
                == 8 + bonus
        }),
{
}

/// A delta that brings progress to the recipe's maximum completes the craft, however
/// much durability is left; short of it, a delta that leaves no durability fails the
/// craft; otherwise the craft goes on with the delta as it is. Ending outcomes carry
/// no repair.
pub proof fn law_completion_before_breaking<C: Condition, M: QualityMap>(
    delta: StateDelta,
    state: CraftingState<C, M>,
)
    ensures
        state.curr_progress + delta.added_progress >= state.problem_def.recipe.max_progress
            ==> ActionOutcome::spec_from_delta_state(delta, state) == ActionOutcome::Completed(
            StateDelta { buff_repair: 0, ..delta },
        ),
        state.curr_progress + delta.added_progress < state.problem_def.recipe.max_progress
            && state.curr_durability + delta.action_durability <= 0
            ==> ActionOutcome::spec_from_delta_state(delta, state) == ActionOutcome::Failure(
            StateDelta { buff_repair: 0, ..delta },
        ),
        state.curr_progress + delta.added_progress < state.problem_def.recipe.max_progress
            && state.curr_durability + delta.action_durability > 0
            ==> ActionOutcome::spec_from_delta_state(delta, state) == ActionOutcome::InProgress(
            delta,
        ),
{
}

/// An action (or its failure) completes the craft exactly when the progress it makes
/// brings the state to the recipe's maximum, whatever durability it leaves.
pub proof fn law_action_completes_at_max_progress<C: Condition, M: QualityMap>(
    kind: FfxivCraftingActions,
    failed: bool,
    state: CraftingState<C, M>,
)
    ensures
        (kind.spec_outcome(failed, state) is Completed) <==> state.curr_progress + kind.spec_delta(
            failed,
            state,
        ).added_progress >= state.problem_def.recipe.max_progress,
{
    law_completion_before_breaking(kind.spec_delta(failed, state), state);
}

/// Fail rates: Rapid Synthesis fails half the time and Hasty Touch 40% of the time,
/// 25 points less in a Centered condition; Focused Synthesis and Focused Touch fail
/// half the time, but never right after Observe; every other action always succeeds.
pub proof fn law_fail_rates<C: Condition, M: QualityMap>(
    kind: FfxivCraftingActions,
    state: CraftingState<C, M>,
)
    ensures
        ({
            let centered = state.condition.spec_success_rate_modifier()
                == crate::conditions::SuccessRateModifier::Centered;
            let observed = state.buffs.combo.observation.spec_active();
            &&& FfxivCraftingActions::RapidSynthesis.spec_fail_rate(state) == (if centered {
                25int
            } else {
                50
            })
            &&& FfxivCraftingActions::HastyTouch.spec_fail_rate(state) == (if centered {
                15int
            } else {
                40
            })
            &&& FfxivCraftingActions::FocusedSynthesis.spec_fail_rate(state) == (if observed {
                0int
            } else {
                50
            })
            &&& FfxivCraftingActions::FocusedTouch.spec_fail_rate(state) == (if observed {
                0int
            } else {
                50
            })
            &&& kind != FfxivCraftingActions::RapidSynthesis && kind
                != FfxivCraftingActions::HastyTouch && kind != FfxivCraftingActions::FocusedSynthesis
                && kind != FfxivCraftingActions::FocusedTouch ==> kind.spec_fail_rate(state) == 0
        }),
{
}

/// Inner Quiet after an action: a failed action leaves it as it was; Byregot's Blessing
/// uses up every stack; Precise Touch, Reflect and Preparatory Touch add two stacks and
/// the other touches (and Delicate Synthesis) one, up to ten; every other action leaves
/// it as it was.
pub proof fn law_inner_quiet_after<C: Condition, M: QualityMap>(
    kind: FfxivCraftingActions,
    state: CraftingState<C, M>,
)
    ensures
        ({
            let iq = state.buffs.quality.inner_quiet.0 as int;
            let after = kind.spec_delta(false, state).new_buffs.quality.inner_quiet.0 as int;
            let one = kind == FfxivCraftingActions::BasicTouch || kind
                == FfxivCraftingActions::HastyTouch || kind == FfxivCraftingActions::StandardTouch
                || kind == FfxivCraftingActions::PrudentTouch || kind
                == FfxivCraftingActions::FocusedTouch || kind == FfxivCraftingActions::AdvancedTouch
                || kind == FfxivCraftingActions::DelicateSynthesis;
            let two = kind == FfxivCraftingActions::PreciseTouch || kind
                == FfxivCraftingActions::Reflect || kind == FfxivCraftingActions::PreparatoryTouch;
            &&& kind.spec_delta(true, state).new_buffs.quality.inner_quiet.0 == iq
            &&& kind == FfxivCraftingActions::ByregotsBlessing ==> after == 0
            &&& one ==> after == (if iq + 1 > 10 {
                10
            } else {
                iq + 1
            })
            &&& two ==> after == (if iq + 2 > 10 {
                10
            } else {
                iq + 2
            })
            &&& !one && !two && kind != FfxivCraftingActions::ByregotsBlessing ==> after == iq
        }),
{
}

/// The efficiencies, in percent, of the actions that make progress or quality: Basic
/// Synthesis 120 from level 31 (100 before), Careful Synthesis 180 from level 82 (150),
/// Groundwork 360 from level 86 (300), Rapid Synthesis 500 from level 63 (250); Basic
/// Touch 100, Standard Touch 125, Advanced Touch 150, Preparatory Touch 200, and
/// Byregot's Blessing 100 plus 20 a stack of Inner Quiet.
pub proof fn law_action_efficiencies(level: u8, iq: u8)
    requires
        iq <= 10,
    ensures
        FfxivCraftingActions::BasicSynthesis.spec_progress_efficiency(level) == (if level >= 31 {
            120int
        } else {
            100
        }),
        FfxivCraftingActions::CarefulSynthesis.spec_progress_efficiency(level) == (if level >= 82 {
            180int
        } else {
            150
        }),
        FfxivCraftingActions::Groundwork.spec_progress_efficiency(level) == (if level >= 86 {
            360int
        } else {
            300
        }),
        FfxivCraftingActions::RapidSynthesis.spec_progress_efficiency(level) == (if level >= 63 {
            500int
        } else {
            250
        }),
        FfxivCraftingActions::BasicTouch.spec_progress_efficiency(level) == 0,
        FfxivCraftingActions::BasicTouch.spec_quality_efficiency(iq) == 100,
        FfxivCraftingActions::StandardTouch.spec_quality_efficiency(iq) == 125,
        FfxivCraftingActions::AdvancedTouch.spec_quality_efficiency(iq) == 150,
        FfxivCraftingActions::PreparatoryTouch.spec_quality_efficiency(iq) == 200,
        FfxivCraftingActions::ByregotsBlessing.spec_quality_efficiency(iq) == 100 + 20 * iq,
        FfxivCraftingActions::BasicSynthesis.spec_quality_efficiency(iq) == 0,
{
}

} // verus!
