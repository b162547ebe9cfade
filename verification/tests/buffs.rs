use std::fmt::Debug;

use ffxiv_crafting::buffs::combo::{BasicTouchCombo, ObservationCombo};
use ffxiv_crafting::buffs::durability::{Manipulation, WasteNot, MANIPULATION_REPAIR_VALUE, WASTE_NOT_DISCOUNT};
use ffxiv_crafting::buffs::misc::{HeartAndSoul, SpecialistActions};
use ffxiv_crafting::buffs::progress::{FinalAppraisal, MuscleMemory, Veneration};
use ffxiv_crafting::buffs::quality::{GreatStrides, Innovation, InnerQuiet};
use ffxiv_crafting::buffs::{Buff, ConsumableBuff, DurationalBuff};

fn test_activate<D: DurationalBuff + Debug>(buff: D) {
    assert!(buff.is_inactive(), "buff needs to start inactive, got {:?}", buff);
    let activated = buff.activate(0);
    assert!(activated.is_active());
    assert!(!activated.is_inactive(), "Buff inactivity check not working properly");
}

fn test_activate_in_place<D: DurationalBuff + Debug>(mut buff: D) {
    assert!(buff.is_inactive(), "buff needs to start inactive, got {:?}", buff);
    buff.activate_in_place(0);
    assert!(buff.is_active());
}

fn test_decay<D: DurationalBuff + Debug>(buff: D, obeys_bonus: bool) {
    assert!(buff.is_inactive(), "buff needs to start inactive, got {:?}", buff);
    let buff = buff.activate(2);
    let mut next = if obeys_bonus {
        let mut next = buff.decay();
        assert!(next.is_active());
        next = next.decay();
        assert!(next.is_active());
        next
    } else {
        buff
    };
    for _ in 0..D::base_duration() {
        assert!(next.is_active());
        next = next.decay();
    }
    assert!(next.is_inactive(), "Buff did not deactivate at proper time: {:?}", next);
}

fn test_decay_in_place<D: DurationalBuff + Debug>(mut buff: D, obeys_bonus: bool) {
    assert!(buff.is_inactive(), "buff needs to start inactive, got {:?}", buff);
    buff.activate_in_place(2);
    if obeys_bonus {
        buff.decay_in_place();
        assert!(buff.is_active());
        buff.decay_in_place();
        assert!(buff.is_active());
    }
    for _ in 0..D::base_duration() {
        assert!(buff.is_active());
        buff.decay_in_place();
    }
    assert!(buff.is_inactive(), "Buff did not deactivate at proper time: {:?}", buff);
}

fn test_deactivate<C: ConsumableBuff + Debug>(buff: C, expected_duration: u8) {
    assert!(buff.is_active(), "buff needs to start active, got {:?}", buff);
    let (deactivated, remaining) = buff.deactivate();
    assert!(deactivated.is_inactive(), "Buff is not deactivated as expected: {:?}", deactivated);
    assert_eq!(remaining, expected_duration);
}

fn test_deactivate_in_place<C: ConsumableBuff + Debug>(mut buff: C, expected_duration: u8) {
    assert!(buff.is_active(), "buff needs to start active, got {:?}", buff);
    let remaining = buff.deactivate_in_place();
    assert!(buff.is_inactive(), "Buff is not deactivated as expected: {:?}", buff);
    assert_eq!(remaining, expected_duration);
}

fn test_deactivate_helper<B: ConsumableBuff + DurationalBuff + Debug>(mut buff: B) {
    assert!(buff.is_inactive());
    buff.activate_in_place(0);
    test_deactivate(buff, B::base_duration());
}

fn test_deactivate_in_place_helper<B: ConsumableBuff + DurationalBuff + Debug>(mut buff: B) {
    assert!(buff.is_inactive());
    buff.activate_in_place(0);
    test_deactivate_in_place(buff, B::base_duration());
}

fn test_reactivate<D: DurationalBuff + Debug + Clone>(mut buff: D, obeys_bonus: bool) {
    buff.activate_in_place(0);
    assert!(buff.is_active());
    buff.activate_in_place(2);
    assert!(buff.is_active());
    if obeys_bonus {
        let mut count = 0;
        while buff.is_active() {
            count += 1;
            buff.decay_in_place();
        }
        assert_eq!(count, D::base_duration() + 2);
    }
}

#[test]
fn tests_activate() {
    test_activate(BasicTouchCombo::Inactive);
    test_activate(ObservationCombo::Inactive);
    test_activate(Manipulation(0));
    test_activate(WasteNot::Inactive);
    test_activate(Veneration(0));
    test_activate(MuscleMemory(0));
    test_activate(FinalAppraisal(0));
    test_activate(GreatStrides(0));
    test_activate(Innovation(0));
    assert_eq!(HeartAndSoul::Inactive.activate(), HeartAndSoul::Active);
}

#[test]
fn tests_activate_in_place() {
    test_activate_in_place(BasicTouchCombo::Inactive);
    test_activate_in_place(ObservationCombo::Inactive);
    test_activate_in_place(Manipulation(0));
    test_activate_in_place(WasteNot::Inactive);
    test_activate_in_place(Veneration(0));
    test_activate_in_place(MuscleMemory(0));
    test_activate_in_place(FinalAppraisal(0));
    test_activate_in_place(GreatStrides(0));
    test_activate_in_place(Innovation(0));
    let mut has = HeartAndSoul::Inactive;
    has.activate_in_place();
    assert!(has.is_active());
}

#[test]
fn tests_decay() {
    test_decay(BasicTouchCombo::Inactive, false);
    test_decay(ObservationCombo::Inactive, false);
    test_decay(Manipulation(0), true);
    test_decay(WasteNot::Inactive, true);
    test_decay(Veneration(0), true);
    test_decay(MuscleMemory(0), true);
    test_decay(FinalAppraisal(0), true);
    test_decay(GreatStrides(0), true);
    test_decay(Innovation(0), true);
}

#[test]
fn tests_decay_in_place() {
    test_decay_in_place(BasicTouchCombo::Inactive, false);
    test_decay_in_place(ObservationCombo::Inactive, false);
    test_decay_in_place(Manipulation(0), true);
    test_decay_in_place(WasteNot::Inactive, true);
    test_decay_in_place(Veneration(0), true);
    test_decay_in_place(MuscleMemory(0), true);
    test_decay_in_place(FinalAppraisal(0), true);
    test_decay_in_place(GreatStrides(0), true);
    test_decay_in_place(Innovation(0), true);
}

#[test]
fn tests_reactivate() {
    test_reactivate(BasicTouchCombo::BasicTouch, false);
    test_reactivate(ObservationCombo::Active, false);
    test_reactivate(Manipulation(1), true);
    test_reactivate(WasteNot::WasteNot(1), true);
    test_reactivate(Veneration(1), true);
}

#[test]
fn tests_deactivate() {
    test_deactivate(HeartAndSoul::Active, u8::MAX);
    test_deactivate_helper(MuscleMemory(0));
    test_deactivate_helper(FinalAppraisal(0));
    test_deactivate_helper(GreatStrides(0));
}

#[test]
fn tests_deactivate_in_place() {
    test_deactivate_in_place(HeartAndSoul::Active, u8::MAX);
    test_deactivate_in_place_helper(MuscleMemory(0));
    test_deactivate_in_place_helper(FinalAppraisal(0));
    test_deactivate_in_place_helper(GreatStrides(0));
}

#[test]
fn standard_touch_combo_activate() {
    assert_eq!(BasicTouchCombo::StandardTouch.activate(0), BasicTouchCombo::BasicTouch);
}

#[test]
fn standard_touch_combo_decay() {
    assert_eq!(BasicTouchCombo::StandardTouch.decay(), BasicTouchCombo::Inactive);
}

#[test]
fn repair_inactive() {
    assert_eq!(Manipulation(0).repair(), 0);
}

#[test]
fn repair_active() {
    assert_eq!(Manipulation(1).repair(), MANIPULATION_REPAIR_VALUE);
}

#[test]
fn cost_mod_inactive() {
    assert_eq!(WasteNot::Inactive.durability_cost_mod(), 100);
}

#[test]
fn cost_mod_active() {
    assert_eq!(WasteNot::WasteNot(2).durability_cost_mod(), WASTE_NOT_DISCOUNT);
}

#[test]
fn cost_mod_active_2() {
    assert_eq!(WasteNot::WasteNot2(2).durability_cost_mod(), WASTE_NOT_DISCOUNT);
}

#[test]
fn waste_not_2_logic() {
    let base = WasteNot::base_duration();
    assert_eq!(WasteNot::Inactive.activate(0), WasteNot::WasteNot(base));
    assert_eq!(WasteNot::Inactive.activate(2), WasteNot::WasteNot(base + 2));
    assert_eq!(WasteNot::Inactive.activate(4), WasteNot::WasteNot2(base + 4));
    assert_eq!(WasteNot::Inactive.activate(6), WasteNot::WasteNot2(base + 6));
}

#[test]
fn should_be_available() {
    assert!(SpecialistActions::Availalble(3).actions_available());
}

#[test]
fn shouldnt_be_available_out() {
    assert!(!SpecialistActions::Unavailable.actions_available());
}

#[test]
fn shouldnt_be_available_no_specialist() {
    assert!(!SpecialistActions::NotSpecialist.actions_available());
}

#[test]
fn shouldnt_be_unavailable() {
    assert!(!SpecialistActions::Availalble(3).actions_unavailable());
}

#[test]
fn should_be_unavailable_out() {
    assert!(SpecialistActions::Unavailable.actions_unavailable());
}

#[test]
fn should_be_unavailable_no_specialist() {
    assert!(SpecialistActions::NotSpecialist.actions_unavailable());
}

#[test]
fn run_out() {
    assert_eq!(SpecialistActions::Availalble(1) - 1, SpecialistActions::Unavailable);
}

#[test]
fn still_available() {
    assert_eq!(SpecialistActions::Availalble(2) - 1, SpecialistActions::Availalble(1));
}

#[test]
fn is_active() {
    assert!(HeartAndSoul::Active.is_active());
}

#[test]
fn is_not_active() {
    assert!(!HeartAndSoul::Inactive.is_active());
}

#[test]
fn is_inactive() {
    assert!(HeartAndSoul::Inactive.is_inactive());
}

#[test]
fn is_not_inactive() {
    assert!(!HeartAndSoul::Active.is_inactive());
}

#[test]
fn inner_quiet_caps_at_ten() {
    assert_eq!(InnerQuiet(9) + 2, InnerQuiet(10));
    assert_eq!(InnerQuiet::default() + 1, InnerQuiet(1));
    assert_eq!(InnerQuiet(3).efficiency_bonus(), 130);
}

#[test]
fn activation_lifetime_example() {
    // Law: an activated buff stays active for exactly as many decays as it was granted.
    let mut v = Veneration(0).activate(2);
    for _ in 0..6 {
        assert!(v.is_active());
        v = v.decay();
    }
    assert!(v.is_inactive());
}
