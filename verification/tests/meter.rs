use crinkle_contraption::{
    ChargeModel, ModelError, CHARGE_UNIT, DEFAULT_DIFFICULTY, DEFAULT_TURN_LENGTH,
    DIFFICULTY_MAX, METER_MAX, MIN_TURN_LENGTH,
};

const SECOND: u64 = 1_000_000_000;

fn points(n: u64) -> u64 {
    n * CHARGE_UNIT
}

fn nudge(n: i64) -> i64 {
    n * 1_000_000
}

fn running_model() -> ChargeModel {
    let mut model = ChargeModel::new(0);
    model.set_running(true);
    model
}

fn model_with_charge(n: u64) -> ChargeModel {
    let mut model = ChargeModel::new(0);
    model.adjust_charge(nudge(n as i64));
    assert_eq!(model.charge(), points(n));
    model
}

#[test]
fn starts_with_defaults() {
    let model = ChargeModel::new(42);
    assert_eq!(model.charge(), 0);
    assert!(!model.running());
    assert_eq!(model.orb_states(), [true; 6]);
    assert_eq!(model.active_orbs(), 6);
    assert_eq!(model.turn_length(), 10 * SECOND);
    assert_eq!(model.turn_length(), DEFAULT_TURN_LENGTH);
    assert_eq!(model.difficulty(), points(200));
    assert_eq!(model.difficulty(), DEFAULT_DIFFICULTY);
    assert!(!model.calibrating());
    assert_eq!(METER_MAX, points(700));
}

#[test]
fn default_matches_new_at_zero() {
    let mut model = ChargeModel::default();
    assert_eq!(model.charge(), 0);
    assert!(!model.running());
    assert_eq!(model.active_orbs(), 6);
    model.set_running(true);
    model.tick(5 * SECOND);
    assert_eq!(model.charge(), points(100));
}

#[test]
fn half_a_turn_with_all_orbs_gains_half_the_difficulty() {
    let mut model = running_model();
    model.tick(5 * SECOND);
    assert_eq!(model.charge(), points(100));
}

#[test]
fn three_broken_orbs_quarter_the_rate() {
    let mut model = running_model();
    model.toggle_orb(0).unwrap();
    model.toggle_orb(2).unwrap();
    model.toggle_orb(5).unwrap();
    assert_eq!(model.active_orbs(), 3);
    assert_eq!(model.orb_states(), [false, true, false, true, true, false]);
    model.tick(10 * SECOND);
    assert_eq!(model.charge(), points(50));
}

#[test]
fn spend_deducts_then_declines() {
    let mut model = model_with_charge(150);
    assert_eq!(model.can_afford(1), Ok(true));
    assert_eq!(model.spend(1), Ok(true));
    assert_eq!(model.charge(), points(50));
    assert_eq!(model.can_afford(2), Ok(false));
    assert_eq!(model.spend(2), Ok(false));
    assert_eq!(model.charge(), points(50));
}

#[test]
fn adjust_charge_stops_at_the_top() {
    let mut model = model_with_charge(680);
    model.adjust_charge(nudge(50));
    assert_eq!(model.charge(), points(700));
    assert_eq!(model.charge(), METER_MAX);
}

#[test]
fn adjust_charge_stops_at_zero() {
    let mut model = model_with_charge(20);
    model.adjust_charge(nudge(-50));
    assert_eq!(model.charge(), 0);
    model.adjust_charge(i64::MIN);
    assert_eq!(model.charge(), 0);
    model.adjust_charge(i64::MAX);
    assert_eq!(model.charge(), METER_MAX);
}

#[test]
fn adjust_charge_moves_by_the_exact_amount_inside_the_range() {
    let mut model = model_with_charge(300);
    model.adjust_charge(nudge(-50));
    assert_eq!(model.charge(), points(250));
    model.adjust_charge(7);
    assert_eq!(model.charge(), points(250) + 7);
}

#[test]
fn tick_stops_at_the_top() {
    let mut model = running_model();
    model.adjust_charge(nudge(650));
    model.tick(5 * SECOND);
    assert_eq!(model.charge(), METER_MAX);
    model.tick(500 * SECOND);
    assert_eq!(model.charge(), METER_MAX);
}

#[test]
fn charge_stays_in_range_over_a_mixed_sequence() {
    let mut model = running_model();
    let mut now: u64 = 0;
    for round in 0..200u64 {
        now += 3 * SECOND;
        model.tick(now);
        assert!(model.charge() <= METER_MAX);
        let tier = (round % 6 + 1) as u8;
        model.spend(tier).unwrap();
        assert!(model.charge() <= METER_MAX);
        let delta = if round % 3 == 0 { nudge(-450) } else { nudge(390) };
        model.adjust_charge(delta);
        assert!(model.charge() <= METER_MAX);
    }
}

#[test]
fn paused_ticks_leave_the_charge_alone() {
    let mut model = model_with_charge(120);
    assert!(!model.running());
    for step in 1..50u64 {
        model.tick(step * 7 * SECOND);
        assert_eq!(model.charge(), points(120));
    }
}

#[test]
fn time_spent_paused_is_not_credited_on_resume() {
    let mut model = ChargeModel::new(0);
    model.tick(100 * SECOND);
    model.set_running(true);
    model.tick(101 * SECOND);
    assert_eq!(model.charge(), points(20));
}

#[test]
fn set_running_keeps_the_charge() {
    let mut model = model_with_charge(75);
    model.set_running(true);
    assert!(model.running());
    assert_eq!(model.charge(), points(75));
    model.set_running(false);
    assert!(!model.running());
    assert_eq!(model.charge(), points(75));
}

#[test]
fn reset_empties_the_charge_running_or_not() {
    let mut model = model_with_charge(333);
    model.reset_charge();
    assert_eq!(model.charge(), 0);
    let mut model = running_model();
    model.tick(4 * SECOND);
    assert_eq!(model.charge(), points(80));
    model.reset_charge();
    assert_eq!(model.charge(), 0);
    assert!(model.running());
}

#[test]
fn gain_falls_as_orbs_break() {
    let expected: [u64; 7] =
        [200_000_000, 100_000_000, 66_666_666, 50_000_000, 40_000_000, 33_333_333, 0];
    let mut previous = u64::MAX;
    for broken in 0..=6usize {
        let mut model = running_model();
        for index in 0..broken {
            model.toggle_orb(index).unwrap();
        }
        assert_eq!(model.active_orbs() as usize, 6 - broken);
        model.tick(10 * SECOND);
        assert_eq!(model.charge(), expected[broken]);
        assert!(model.charge() <= previous);
        previous = model.charge();
    }
}

#[test]
fn no_working_orb_gains_nothing() {
    let mut model = running_model();
    for index in 0..6 {
        model.toggle_orb(index).unwrap();
    }
    assert_eq!(model.active_orbs(), 0);
    model.tick(1000 * SECOND);
    assert_eq!(model.charge(), 0);
}

#[test]
fn gain_is_rounded_down() {
    let mut model = running_model();
    model.tick(1);
    assert_eq!(model.charge(), 0);
    model.tick(1 + 83_333_333);
    assert_eq!(model.charge(), 1_666_666);
    model.tick(1 + 83_333_333 + 50);
    assert_eq!(model.charge(), 1_666_667);
}

#[test]
fn a_clock_that_runs_backwards_gains_nothing() {
    let mut model = ChargeModel::new(50 * SECOND);
    model.set_running(true);
    model.tick(40 * SECOND);
    assert_eq!(model.charge(), 0);
    model.tick(45 * SECOND);
    assert_eq!(model.charge(), points(100));
}

#[test]
fn toggle_flips_back_and_forth() {
    let mut model = ChargeModel::new(0);
    assert_eq!(model.toggle_orb(4), Ok(()));
    assert_eq!(model.orb_states(), [true, true, true, true, false, true]);
    assert_eq!(model.active_orbs(), 5);
    assert_eq!(model.toggle_orb(4), Ok(()));
    assert_eq!(model.orb_states(), [true; 6]);
}

#[test]
fn toggle_refuses_an_index_past_the_last_orb() {
    let mut model = ChargeModel::new(0);
    assert_eq!(model.toggle_orb(6), Err(ModelError::OutOfRange));
    assert_eq!(model.toggle_orb(usize::MAX), Err(ModelError::OutOfRange));
    assert_eq!(model.orb_states(), [true; 6]);
}

#[test]
fn every_tier_has_its_cost() {
    for tier in 1..=6u8 {
        assert_eq!(ChargeModel::cost(tier), Ok(points(100 * tier as u64)));
    }
    assert_eq!(ChargeModel::cost(0), Err(ModelError::OutOfRange));
    assert_eq!(ChargeModel::cost(7), Err(ModelError::OutOfRange));
}

#[test]
fn spend_succeeds_exactly_from_the_cost_upwards() {
    for tier in 1..=6u8 {
        let cost = ChargeModel::cost(tier).unwrap();
        let mut model = ChargeModel::new(0);
        model.adjust_charge(cost as i64 - 1);
        assert_eq!(model.can_afford(tier), Ok(false));
        assert_eq!(model.spend(tier), Ok(false));
        assert_eq!(model.charge(), cost - 1);
        model.adjust_charge(1);
        assert_eq!(model.can_afford(tier), Ok(true));
        assert_eq!(model.spend(tier), Ok(true));
        assert_eq!(model.charge(), 0);
    }
}

#[test]
fn spend_refuses_a_tier_outside_one_to_six() {
    let mut model = model_with_charge(700);
    assert_eq!(model.spend(0), Err(ModelError::OutOfRange));
    assert_eq!(model.spend(7), Err(ModelError::OutOfRange));
    assert_eq!(model.can_afford(0), Err(ModelError::OutOfRange));
    assert_eq!(model.can_afford(255), Err(ModelError::OutOfRange));
    assert_eq!(model.charge(), points(700));
}

#[test]
fn calibration_sets_the_turn_length() {
    let mut model = ChargeModel::new(0);
    model.start_calibration(3 * SECOND);
    assert!(model.calibrating());
    assert_eq!(model.finish_calibration(10 * SECOND + 5), Ok(7 * SECOND + 5));
    assert!(!model.calibrating());
    assert_eq!(model.turn_length(), 7 * SECOND + 5);
    model.set_running(true);
    model.tick(7 * SECOND + 5);
    assert_eq!(model.charge(), points(200));
}

#[test]
fn finish_without_start_is_an_invalid_state() {
    let mut model = ChargeModel::new(0);
    assert_eq!(model.finish_calibration(5 * SECOND), Err(ModelError::InvalidState));
    assert!(!model.calibrating());
    assert_eq!(model.turn_length(), 10 * SECOND);
    model.start_calibration(0);
    model.finish_calibration(2 * SECOND).unwrap();
    assert_eq!(model.finish_calibration(9 * SECOND), Err(ModelError::InvalidState));
    assert_eq!(model.turn_length(), 2 * SECOND);
}

#[test]
fn a_second_start_keeps_the_first_start_time() {
    let mut model = ChargeModel::new(0);
    model.start_calibration(SECOND);
    model.start_calibration(4 * SECOND);
    assert!(model.calibrating());
    assert_eq!(model.finish_calibration(6 * SECOND), Ok(5 * SECOND));
}

#[test]
fn a_calibration_that_is_too_short_is_raised_to_the_minimum() {
    let mut model = ChargeModel::new(0);
    model.start_calibration(SECOND);
    assert_eq!(model.finish_calibration(SECOND), Ok(MIN_TURN_LENGTH));
    assert_eq!(model.turn_length(), 10_000_000);
    model.start_calibration(SECOND);
    assert_eq!(model.finish_calibration(SECOND + MIN_TURN_LENGTH - 1), Ok(MIN_TURN_LENGTH));
    model.start_calibration(SECOND);
    assert_eq!(model.finish_calibration(SECOND + MIN_TURN_LENGTH + 1), Ok(MIN_TURN_LENGTH + 1));
    model.start_calibration(9 * SECOND);
    assert_eq!(model.finish_calibration(SECOND), Ok(MIN_TURN_LENGTH));
}

#[test]
fn difficulty_moves_and_stops_at_zero() {
    let mut model = ChargeModel::new(0);
    model.adjust_difficulty(nudge(50));
    assert_eq!(model.difficulty(), points(250));
    model.adjust_difficulty(nudge(-100));
    assert_eq!(model.difficulty(), points(150));
    model.adjust_difficulty(nudge(-200));
    assert_eq!(model.difficulty(), 0);
    model.set_running(true);
    model.tick(30 * SECOND);
    assert_eq!(model.charge(), 0);
}

#[test]
fn difficulty_stops_at_its_largest_value() {
    let mut model = ChargeModel::new(0);
    model.adjust_difficulty(i64::MAX);
    assert_eq!(model.difficulty(), DEFAULT_DIFFICULTY + 9_223_372_036_854_775_807);
    model.adjust_difficulty(i64::MAX);
    assert_eq!(model.difficulty(), DIFFICULTY_MAX);
    model.set_running(true);
    model.tick(u64::MAX);
    assert_eq!(model.charge(), METER_MAX);
}

#[test]
fn difficulty_scales_the_gain() {
    let mut model = running_model();
    model.adjust_difficulty(nudge(100));
    model.toggle_orb(1).unwrap();
    model.tick(2 * SECOND);
    assert_eq!(model.charge(), points(30));
}
