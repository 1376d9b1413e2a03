use mushell::readiness::{
    timeout_message, ChannelWait, WaitAction, WaitEvent, WaitPhase, POLL_INTERVAL_MILLIS,
    REPORT_EVERY,
};

const MILLI: u128 = 1_000_000;

/// Runs a wait on a clock that advances by one pause per round, against a
/// channel that opens in round `opens_in` if at all.
fn run(timeout: u128, opens_in: Option<u64>) -> (WaitAction, u128, Vec<bool>) {
    let mut wait = ChannelWait::new(timeout);
    let mut round: u64 = 0;
    let mut reports = vec![];
    loop {
        let elapsed = (round as u128) * (POLL_INTERVAL_MILLIS as u128) * MILLI;
        match wait.step(WaitEvent::Clock(elapsed)) {
            WaitAction::Probe => {}
            last => return (last, elapsed, reports),
        }
        match wait.step(WaitEvent::Probe(opens_in == Some(round))) {
            WaitAction::Pause { millis, report } => {
                assert_eq!(millis, 120);
                reports.push(report);
            }
            last => return (last, elapsed, reports),
        }
        round += 1;
    }
}

#[test]
fn the_wait_constants_are_as_documented() {
    assert_eq!(POLL_INTERVAL_MILLIS, 120);
    assert_eq!(REPORT_EVERY, 10);
}

#[test]
fn a_new_wait_begins_with_the_clock() {
    let wait = ChannelWait::new(6_000 * MILLI);
    assert_eq!(
        wait,
        ChannelWait { timeout_nanos: 6_000 * MILLI, attempts: 0, phase: WaitPhase::AwaitClock }
    );
}

#[test]
fn a_channel_that_is_up_at_once_succeeds_at_the_first_probe() {
    let (last, elapsed, reports) = run(6_000 * MILLI, Some(0));
    assert_eq!(last, WaitAction::Succeed { attempts: 1 });
    assert_eq!(elapsed, 0);
    assert!(reports.is_empty());
}

#[test]
fn a_channel_that_opens_in_time_succeeds() {
    let (last, elapsed, reports) = run(6_000 * MILLI, Some(3));
    assert_eq!(last, WaitAction::Succeed { attempts: 4 });
    assert_eq!(elapsed, 360 * MILLI);
    assert_eq!(reports, vec![true, false, false]);
}

#[test]
fn a_channel_that_opens_at_the_very_limit_succeeds() {
    let (last, elapsed, _) = run(6_000 * MILLI, Some(50));
    assert_eq!(last, WaitAction::Succeed { attempts: 51 });
    assert_eq!(elapsed, 6_000 * MILLI);
}

#[test]
fn a_channel_that_never_opens_fails_after_the_timeout_and_not_before() {
    let (last, elapsed, reports) = run(6_000 * MILLI, None);
    assert_eq!(last, WaitAction::Fail { attempts: 51 });
    assert_eq!(elapsed, 6_120 * MILLI);
    assert!(elapsed > 6_000 * MILLI);
    assert_eq!(reports.len(), 51);
}

#[test]
fn a_channel_that_opens_too_late_fails() {
    let (last, _, _) = run(6_000 * MILLI, Some(51));
    assert_eq!(last, WaitAction::Fail { attempts: 51 });
}

#[test]
fn every_tenth_refusal_is_reported() {
    let (_, _, reports) = run(6_000 * MILLI, None);
    for (k, report) in reports.iter().enumerate() {
        assert_eq!(*report, k % 10 == 0);
    }
}

#[test]
fn a_reading_equal_to_the_timeout_is_still_in_time() {
    let mut wait = ChannelWait::new(1_000);
    assert_eq!(wait.step(WaitEvent::Clock(1_000)), WaitAction::Probe);
    assert_eq!(wait.phase, WaitPhase::AwaitProbe);
    let mut late = ChannelWait::new(1_000);
    assert_eq!(late.step(WaitEvent::Clock(1_001)), WaitAction::Fail { attempts: 0 });
    assert_eq!(late.phase, WaitPhase::TimedOut);
}

#[test]
fn a_zero_timeout_allows_a_probe_at_time_zero() {
    let mut wait = ChannelWait::new(0);
    assert_eq!(wait.step(WaitEvent::Clock(0)), WaitAction::Probe);
    assert_eq!(wait.step(WaitEvent::Probe(false)), WaitAction::Pause { millis: 120, report: true });
    assert_eq!(wait.step(WaitEvent::Clock(1)), WaitAction::Fail { attempts: 1 });
}

#[test]
fn events_out_of_turn_change_nothing() {
    let mut wait = ChannelWait::new(1_000);
    let before = wait;
    assert_eq!(wait.step(WaitEvent::Probe(true)), WaitAction::ReadClock);
    assert_eq!(wait, before);
    assert_eq!(wait.step(WaitEvent::Clock(5)), WaitAction::Probe);
    let probing = wait;
    assert_eq!(wait.step(WaitEvent::Clock(2_000)), WaitAction::Probe);
    assert_eq!(wait, probing);
}

#[test]
fn a_finished_wait_repeats_its_result() {
    let mut ready = ChannelWait::new(1_000);
    ready.step(WaitEvent::Clock(0));
    assert_eq!(ready.step(WaitEvent::Probe(true)), WaitAction::Succeed { attempts: 1 });
    assert_eq!(ready.phase, WaitPhase::Ready);
    assert_eq!(ready.step(WaitEvent::Clock(5_000)), WaitAction::Succeed { attempts: 1 });
    assert_eq!(ready.step(WaitEvent::Probe(false)), WaitAction::Succeed { attempts: 1 });
    let mut failed = ChannelWait::new(1_000);
    assert_eq!(failed.step(WaitEvent::Clock(1_001)), WaitAction::Fail { attempts: 0 });
    assert_eq!(failed.step(WaitEvent::Clock(0)), WaitAction::Fail { attempts: 0 });
    assert_eq!(failed.step(WaitEvent::Probe(true)), WaitAction::Fail { attempts: 0 });
}

#[test]
fn the_count_of_refusals_stops_at_its_largest_value() {
    let mut wait = ChannelWait { timeout_nanos: 10, attempts: u64::MAX, phase: WaitPhase::AwaitProbe };
    assert_eq!(
        wait.step(WaitEvent::Probe(false)),
        WaitAction::Pause { millis: 120, report: u64::MAX % 10 == 0 }
    );
    assert_eq!(wait.attempts, u64::MAX);
    wait.step(WaitEvent::Clock(0));
    assert_eq!(wait.step(WaitEvent::Probe(true)), WaitAction::Succeed { attempts: u64::MAX });
}

#[test]
fn the_timeout_message_names_address_and_attempts() {
    assert_eq!(
        timeout_message("/tmp/mushell-1-2.sock", 51),
        "waiting mpv IPC Gateway Timeout（/tmp/mushell-1-2.sock）,51 "
    );
    assert_eq!(timeout_message("", 0), "waiting mpv IPC Gateway Timeout（）,0 ");
}
