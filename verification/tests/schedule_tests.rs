use xiao_esp32s3::schedule::{
    MeasureCycle, PublishDecimator, ReadingFate, StateSavePolicy, SPS30_DISCARDED_WARMUP_READINGS,
    STATE_SAVE_INTERVAL_MS,
};

#[test]
fn a_new_cycle_starts_with_initialisation() {
    let cycle = MeasureCycle::new(2);
    assert!(cycle.needs_init());
}

#[test]
fn warm_up_readings_are_held_back_after_each_initialisation() {
    let mut cycle = MeasureCycle::new(2);
    cycle.initialized();
    assert_eq!(
        cycle.measured(),
        ReadingFate {
            settling: true,
            restart_schedule: true
        }
    );
    assert!(!cycle.needs_init());
    assert_eq!(
        cycle.measured(),
        ReadingFate {
            settling: true,
            restart_schedule: false
        }
    );
    assert_eq!(
        cycle.measured(),
        ReadingFate {
            settling: false,
            restart_schedule: false
        }
    );
    cycle.failed();
    assert!(cycle.needs_init());
    cycle.initialized();
    assert!(cycle.measured().settling);
}

#[test]
fn a_failure_without_reinitialisation_keeps_the_count() {
    let mut cycle = MeasureCycle::new(1);
    cycle.initialized();
    assert!(cycle.measured().settling);
    cycle.failed();
    let fate = cycle.measured();
    assert!(!fate.settling);
    assert!(fate.restart_schedule);
}

#[test]
fn no_warm_up_publishes_every_reading() {
    let mut cycle = MeasureCycle::new(0);
    cycle.initialized();
    for _ in 0..5 {
        assert!(!cycle.measured().settling);
    }
}

#[test]
fn sps30_drops_its_first_six_readings() {
    let mut cycle = MeasureCycle::new(SPS30_DISCARDED_WARMUP_READINGS);
    cycle.initialized();
    let settling: Vec<bool> = (0..8).map(|_| cycle.measured().settling).collect();
    assert_eq!(settling, vec![true, true, true, true, true, true, false, false]);
}

#[test]
fn decimator_publishes_every_second_output() {
    let mut decimator = PublishDecimator::new(2);
    let published: Vec<bool> = (0..6).map(|_| decimator.output()).collect();
    assert_eq!(published, vec![true, false, true, false, true, false]);
}

#[test]
fn decimator_with_period_one_publishes_everything() {
    let mut decimator = PublishDecimator::new(1);
    assert!((0..4).all(|_| decimator.output()));
}

#[test]
fn first_output_is_adopted_not_saved() {
    let mut policy = StateSavePolicy::new(0);
    assert!(!policy.fresh_output(3, 10));
    assert!(!policy.fresh_output(3, 20));
}

#[test]
fn a_rise_in_accuracy_is_saved_at_once() {
    let mut policy = StateSavePolicy::new(0);
    assert!(!policy.fresh_output(1, 10));
    assert!(policy.fresh_output(2, 20));
    policy.saved(2, 20);
    assert!(!policy.fresh_output(2, 30));
    assert!(!policy.fresh_output(1, 40));
}

#[test]
fn the_state_is_saved_when_overdue() {
    let mut policy = StateSavePolicy::new(1000);
    assert!(!policy.fresh_output(1, 2000));
    assert!(!policy.fresh_output(1, 1000 + STATE_SAVE_INTERVAL_MS - 1));
    assert!(policy.fresh_output(1, 1000 + STATE_SAVE_INTERVAL_MS));
    policy.saved(1, 1000 + STATE_SAVE_INTERVAL_MS);
    assert!(!policy.fresh_output(1, 1000 + STATE_SAVE_INTERVAL_MS + 5));
}

#[test]
fn saved_accuracy_is_never_lowered() {
    let mut policy = StateSavePolicy::new(0);
    policy.fresh_output(3, 1);
    policy.saved(1, STATE_SAVE_INTERVAL_MS);
    assert!(!policy.fresh_output(2, STATE_SAVE_INTERVAL_MS + 1));
}
