use std::collections::HashMap;
use std::iter;

use ffxiv_crafting::conditions::{
    condition_from_bits, sample, Condition, ConditionBitsMismatch, ConditionBits, CpUsageModifier,
    DurabilityModifier, ProgressModifier, QARegularConditions, QualityModifier,
    RelicExpertConditions, RestoExpertConditions, StatusDurationModifier, SuccessRateModifier,
    EXPERT_CRAFT_2, NORMAL_CONDITIONS,
};
use rand::rngs::StdRng;
use rand::SeedableRng;

const RAND_ANALYSIS_STEPS: usize = 10_000_000;
// 0.1% error allowed
const DISTRIBUTION_ANALYSIS_ALLOWED_ERROR: f64 = 0.1 / 100.;

const QA: [QARegularConditions; 4] = [
    QARegularConditions::Normal,
    QARegularConditions::Good,
    QARegularConditions::Excellent,
    QARegularConditions::Poor,
];

const RESTO: [RestoExpertConditions; 6] = [
    RestoExpertConditions::Normal,
    RestoExpertConditions::Good,
    RestoExpertConditions::Pliant,
    RestoExpertConditions::Sturdy,
    RestoExpertConditions::Malleable,
    RestoExpertConditions::Primed,
];

#[test]
fn qa_condition_bits() {
    assert_eq!(QARegularConditions::bits().0, NORMAL_CONDITIONS);
}

#[test]
fn qa_expert() {
    assert!(!QARegularConditions::expert());
}

#[test]
fn qa_is_excellent() {
    let truth: Vec<_> = QA.into_iter().map(|c| (c, matches!(c, QARegularConditions::Excellent))).collect();
    let reality: Vec<_> = QA.into_iter().map(|c| (c, c.is_excellent())).collect();
    assert_eq!(truth, reality);
}

#[test]
fn qa_is_good() {
    let truth: Vec<_> = QA.into_iter().map(|c| (c, matches!(c, QARegularConditions::Good))).collect();
    let reality: Vec<_> = QA.into_iter().map(|c| (c, c.is_good())).collect();
    assert_eq!(truth, reality);
}

#[test]
fn qa_to_quality_modifier() {
    let truth: Vec<_> = QA
        .into_iter()
        .zip([
            QualityModifier::Normal,
            QualityModifier::Good,
            QualityModifier::Excellent,
            QualityModifier::Poor,
        ])
        .collect();
    let reality: Vec<_> = QA.into_iter().map(|c| (c, c.to_quality_modifier())).collect();
    assert_eq!(truth, reality);
}

#[test]
fn qa_to_progress_modifier() {
    let truth: Vec<_> = QA.into_iter().zip(iter::repeat(ProgressModifier::Normal)).collect();
    let reality: Vec<_> = QA.into_iter().map(|c| (c, c.to_progress_modifier())).collect();
    assert_eq!(truth, reality);
}

#[test]
fn qa_to_success_rate_modifier() {
    let truth: Vec<_> = QA.into_iter().zip(iter::repeat(SuccessRateModifier::Normal)).collect();
    let reality: Vec<_> = QA.into_iter().map(|c| (c, c.to_success_rate_modifier())).collect();
    assert_eq!(truth, reality);
}

#[test]
fn qa_to_durability_modifier() {
    let truth: Vec<_> = QA.into_iter().zip(iter::repeat(DurabilityModifier::Normal)).collect();
    let reality: Vec<_> = QA.into_iter().map(|c| (c, c.to_durability_modifier())).collect();
    assert_eq!(truth, reality);
}

#[test]
fn qa_to_status_duration_modifier() {
    let truth: Vec<_> = QA.into_iter().zip(iter::repeat(StatusDurationModifier::Normal)).collect();
    let reality: Vec<_> = QA.into_iter().map(|c| (c, c.to_status_duration_modifier())).collect();
    assert_eq!(truth, reality);
}

#[test]
fn qa_to_cp_usage_modifier() {
    let truth: Vec<_> = QA.into_iter().zip(iter::repeat(CpUsageModifier::Normal)).collect();
    let reality: Vec<_> = QA.into_iter().map(|c| (c, c.to_cp_usage_modifier())).collect();
    assert_eq!(truth, reality);
}

#[test]
fn qa_distribution() {
    let mut rng = StdRng::seed_from_u64(65342);
    let mut counts = HashMap::with_capacity(4);
    let mut prev = QARegularConditions::Normal;
    for _ in 0..RAND_ANALYSIS_STEPS {
        let cond = sample(prev, &mut rng);
        match prev {
            QARegularConditions::Excellent => assert_eq!(cond, QARegularConditions::Poor),
            QARegularConditions::Poor | QARegularConditions::Good => {
                assert_eq!(cond, QARegularConditions::Normal)
            }
            QARegularConditions::Normal => {
                *counts.entry(cond).or_insert(0) += 1usize;
            }
        }
        prev = cond;
    }
    assert!(counts.len() == 3 && counts.values().all(|&v| v > 1), "{:?}", counts);
    let num_data = counts.values().sum::<usize>() as f64;
    for (cond, avg) in counts.into_iter().map(|(k, v)| (k, v as f64 / num_data)) {
        let expected = match cond {
            QARegularConditions::Excellent => 0.04,
            QARegularConditions::Good => 0.25,
            QARegularConditions::Normal => 0.71,
            QARegularConditions::Poor => panic!("Poor after Normal"),
        };
        assert!((avg - expected).abs() < DISTRIBUTION_ANALYSIS_ALLOWED_ERROR, "p({:?}) = {}", cond, avg);
    }
}

#[test]
fn resto_conds_condition_bits() {
    assert_eq!(RestoExpertConditions::bits().0, EXPERT_CRAFT_2);
}

#[test]
fn resto_conds_expert() {
    assert!(RestoExpertConditions::expert());
}

#[test]
fn resto_conds_is_excellent() {
    let truth: Vec<_> = RESTO.into_iter().zip(iter::repeat(false)).collect();
    let reality: Vec<_> = RESTO.into_iter().map(|c| (c, c.is_excellent())).collect();
    assert_eq!(truth, reality);
}

#[test]
fn resto_conds_is_good() {
    let truth: Vec<_> = RESTO.into_iter().map(|c| (c, matches!(c, RestoExpertConditions::Good))).collect();
    let reality: Vec<_> = RESTO.into_iter().map(|c| (c, c.is_good())).collect();
    assert_eq!(truth, reality);
}

#[test]
fn resto_conds_to_quality_modifier() {
    let truth: Vec<_> = RESTO
        .into_iter()
        .map(|c| (c, if matches!(c, RestoExpertConditions::Good) { QualityModifier::Good } else { QualityModifier::Normal }))
        .collect();
    let reality: Vec<_> = RESTO.into_iter().map(|c| (c, c.to_quality_modifier())).collect();
    assert_eq!(truth, reality);
}

#[test]
fn resto_conds_to_progress_modifier() {
    let truth: Vec<_> = RESTO
        .into_iter()
        .map(|c| (c, if matches!(c, RestoExpertConditions::Malleable) { ProgressModifier::Malleable } else { ProgressModifier::Normal }))
        .collect();
    let reality: Vec<_> = RESTO.into_iter().map(|c| (c, c.to_progress_modifier())).collect();
    assert_eq!(truth, reality);
}

#[test]
fn resto_conds_to_success_rate_modifier() {
    let truth: Vec<_> = RESTO.into_iter().zip(iter::repeat(SuccessRateModifier::Normal)).collect();
    let reality: Vec<_> = RESTO.into_iter().map(|c| (c, c.to_success_rate_modifier())).collect();
    assert_eq!(truth, reality);
}

#[test]
fn resto_conds_to_durability_modifier() {
    let truth: Vec<_> = RESTO
        .into_iter()
        .map(|c| (c, if matches!(c, RestoExpertConditions::Sturdy) { DurabilityModifier::Sturdy } else { DurabilityModifier::Normal }))
        .collect();
    let reality: Vec<_> = RESTO.into_iter().map(|c| (c, c.to_durability_modifier())).collect();
    assert_eq!(truth, reality);
}

#[test]
fn resto_conds_to_status_duration_modifier() {
    let truth: Vec<_> = RESTO
        .into_iter()
        .map(|c| (c, if matches!(c, RestoExpertConditions::Primed) { StatusDurationModifier::Primed } else { StatusDurationModifier::Normal }))
        .collect();
    let reality: Vec<_> = RESTO.into_iter().map(|c| (c, c.to_status_duration_modifier())).collect();
    assert_eq!(truth, reality);
}

#[test]
fn resto_conds_to_cp_usage_modifier() {
    let truth: Vec<_> = RESTO
        .into_iter()
        .map(|c| (c, if matches!(c, RestoExpertConditions::Pliant) { CpUsageModifier::Pliant } else { CpUsageModifier::Normal }))
        .collect();
    let reality: Vec<_> = RESTO.into_iter().map(|c| (c, c.to_cp_usage_modifier())).collect();
    assert_eq!(truth, reality);
}

#[test]
fn resto_conds_distribution() {
    let mut rng = StdRng::seed_from_u64(65342);
    let mut counts = HashMap::with_capacity(6);
    for _ in 0..RAND_ANALYSIS_STEPS {
        let cond = sample(RestoExpertConditions::Normal, &mut rng);
        *counts.entry(cond).or_insert(0) += 1usize;
    }
    assert!(counts.len() == RESTO.len() && counts.values().all(|&v| v > 1), "{:?}", counts);
    let num_data = counts.values().sum::<usize>() as f64;
    let expected = HashMap::from([
        (RestoExpertConditions::Normal, 0.37),
        (RestoExpertConditions::Good, 0.12),
        (RestoExpertConditions::Pliant, 0.12),
        (RestoExpertConditions::Sturdy, 0.15),
        (RestoExpertConditions::Malleable, 0.12),
        (RestoExpertConditions::Primed, 0.12),
    ]);
    for (cond, avg) in counts.into_iter().map(|(k, v)| (k, v as f64 / num_data)) {
        let expect_p = expected.get(&cond).unwrap();
        assert!((avg - expect_p).abs() < DISTRIBUTION_ANALYSIS_ALLOWED_ERROR, "p({:?}) = {}", cond, avg);
    }
}

#[test]
fn relic_conditions_transitions() {
    assert_eq!(RelicExpertConditions::Normal.next_from_roll(11), RelicExpertConditions::Good);
    assert_eq!(RelicExpertConditions::Normal.next_from_roll(12), RelicExpertConditions::Centered);
    assert_eq!(RelicExpertConditions::Normal.next_from_roll(27), RelicExpertConditions::Pliant);
    assert_eq!(RelicExpertConditions::Normal.next_from_roll(39), RelicExpertConditions::Sturdy);
    assert_eq!(RelicExpertConditions::Normal.next_from_roll(54), RelicExpertConditions::Normal);
}

#[test]
fn condition_from_bits_checks_the_set() {
    assert_eq!(
        condition_from_bits::<QARegularConditions>(ConditionBits(NORMAL_CONDITIONS)),
        Ok(QARegularConditions::Normal)
    );
    assert_eq!(
        condition_from_bits::<QARegularConditions>(ConditionBits(EXPERT_CRAFT_2)),
        Err(ConditionBitsMismatch { got: ConditionBits(EXPERT_CRAFT_2) })
    );
}

#[test]
fn regular_transitions_ignore_the_roll() {
    for roll in [0u8, 19, 24, 28, 99] {
        assert_eq!(QARegularConditions::Excellent.next_from_roll(roll), QARegularConditions::Poor);
        assert_eq!(QARegularConditions::Good.next_from_roll(roll), QARegularConditions::Normal);
        assert_eq!(QARegularConditions::Poor.next_from_roll(roll), QARegularConditions::Normal);
        assert_ne!(QARegularConditions::Normal.next_from_roll(roll), QARegularConditions::Poor);
    }
}

#[test]
fn crafts_start_neutral() {
    let c = QARegularConditions::initial();
    assert_eq!(c.to_quality_modifier(), QualityModifier::Normal);
    assert_eq!(c.to_cp_usage_modifier(), CpUsageModifier::Normal);
    assert!(!c.is_good() && !c.is_excellent());
    assert_eq!(RestoExpertConditions::initial().to_status_duration_modifier(), StatusDurationModifier::Normal);
    assert_eq!(QualityModifier::Excellent.value(), 400);
    assert_eq!(CpUsageModifier::Pliant.value(), 50);
}
