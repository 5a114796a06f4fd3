use empowerd::miner::{
    after_sleep, check_miners_enabled, next_round_step, LastRecord, RoundEvent, RoundStep, check_sml_poll_interval, filter_day_data, generator_power_w, miner_task_failed,
    sleep_duration, storage_kind, MinerResult, MinerState, RetryAction, RetryPolicy, StorageKind,
    TimestampedInt,
};
use std::time::Duration;

#[test]
fn test_sleep_duration() {
    assert_eq!(Duration::from_secs(57), Duration::from_secs(sleep_duration(300, 1621753443)));
    assert_eq!(Duration::from_secs(30), Duration::from_secs(sleep_duration(60, 1621754070)));
}

#[test]
fn sleep_on_a_boundary_waits_a_full_interval() {
    assert_eq!(300, sleep_duration(300, 1621753500));
    assert_eq!(1, sleep_duration(1, 7));
}

#[test]
fn after_sleep_outcomes() {
    match after_sleep(Err("no clock".to_string()), "Solar", "roof") {
        Err(MinerResult::Failed(m)) => assert_eq!("sleep_aligned failed in Solar:roof: no clock", m),
        _ => panic!("wrong outcome"),
    }
    assert!(matches!(after_sleep(Ok(MinerState::Canceled), "a", "b"), Err(MinerResult::Canceled)));
    assert!(matches!(after_sleep(Ok(MinerState::Running(42)), "a", "b"), Ok(42)));
}

#[test]
fn failed_tasks_stop_the_miner() {
    assert!(miner_task_failed(&Err("join".to_string())));
    assert!(miner_task_failed(&Ok(MinerResult::Failed("x".to_string()))));
    assert!(!miner_task_failed(&Ok(MinerResult::Running)));
    assert!(!miner_task_failed(&Ok(MinerResult::Canceled)));
}

#[test]
fn retry_policy_of_serial_meters() {
    let p = RetryPolicy::sml_meter();
    assert_eq!(RetryAction::Done, p.next_action(1, false));
    assert_eq!(RetryAction::Retry { reset: false }, p.next_action(1, true));
    assert_eq!(RetryAction::Retry { reset: true }, p.next_action(2, true));
    assert_eq!(RetryAction::Retry { reset: false }, p.next_action(3, true));
    assert_eq!(RetryAction::GiveUp, p.next_action(4, true));
    let b = RetryPolicy::bresser6in1();
    assert_eq!(RetryAction::Retry { reset: true }, b.next_action(2, true));
}

#[test]
fn retry_policy_of_weather_stations() {
    let w = RetryPolicy::weather();
    assert_eq!(RetryAction::Retry { reset: false }, w.next_action(1, true));
    assert_eq!(RetryAction::Retry { reset: true }, w.next_action(2, true));
    assert_eq!(RetryAction::GiveUp, w.next_action(3, true));
    assert_eq!(RetryAction::Done, w.next_action(2, false));
}

#[test]
fn miners_must_be_enabled() {
    assert_eq!(Err("No miners are enabled".to_string()), check_miners_enabled(0));
    assert_eq!(Ok(()), check_miners_enabled(3));
}

#[test]
fn day_data_drops_repeats_and_missing_readings() {
    let points = vec![
        TimestampedInt { timestamp: 100, value: 5 },
        TimestampedInt { timestamp: 400, value: 0xFFFF_FFFF },
        TimestampedInt { timestamp: 700, value: 9 },
    ];
    let kept = filter_day_data(points, 100);
    assert_eq!(vec![TimestampedInt { timestamp: 700, value: 9 }], kept);
}

#[test]
fn storage_kinds() {
    assert_eq!(Ok(StorageKind::SunnyIsland), storage_kind("sunny_island"));
    assert_eq!(Ok(StorageKind::SunnyBoyStorage), storage_kind("sunny_boy_storage"));
    assert_eq!(
        Err("ArgumentError: SunnyStorageClient type foo is invalid.".to_string()),
        storage_kind("foo")
    );
}

#[test]
fn sml_poll_interval() {
    assert_eq!(
        Err("SmlMeterMiner:poll_interval must be >= 5".to_string()),
        check_sml_poll_interval(4)
    );
    assert_eq!(Ok(()), check_sml_poll_interval(5));
}

#[test]
fn generator_power() {
    assert_eq!(800, generator_power_w(1001, Some(1000)));
    assert_eq!(0, generator_power_w(1000, Some(1000)));
    assert_eq!(0, generator_power_w(1000, None));
}

#[test]
fn round_steps() {
    assert_eq!(Ok(RoundStep::QueryLast), next_round_step(RoundEvent::DeviceRead { ok: true }).map_err(|_| ()));
    assert!(matches!(next_round_step(RoundEvent::DeviceRead { ok: false }), Err(MinerResult::Running)));
    assert_eq!(
        Ok(RoundStep::Write { from_last: true }),
        next_round_step(RoundEvent::LastQueried(LastRecord::Found)).map_err(|_| ())
    );
    assert_eq!(
        Ok(RoundStep::Write { from_last: false }),
        next_round_step(RoundEvent::LastQueried(LastRecord::Nothing)).map_err(|_| ())
    );
    assert!(matches!(next_round_step(RoundEvent::LastQueried(LastRecord::Failed)), Err(MinerResult::Running)));
    assert!(matches!(next_round_step(RoundEvent::Written { ok: false }), Err(MinerResult::Running)));
    assert!(matches!(next_round_step(RoundEvent::Written { ok: true }), Err(MinerResult::Running)));
}
