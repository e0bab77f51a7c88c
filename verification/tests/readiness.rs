use kubilitics_desktop::events::{LaunchError, StatusEvent, StatusPhase, BACKEND_STATUS_EVENT, CIRCUIT_RESET_EVENT};
use kubilitics_desktop::readiness::{
    elapsed_millis, elapsed_secs, progress_due, wait_verdict, WaitVerdict, PROGRESS_EVERY,
};

#[test]
fn verdicts() {
    assert_eq!(wait_verdict(120, 1, true), WaitVerdict::Ready);
    assert_eq!(wait_verdict(120, 120, true), WaitVerdict::Ready);
    assert_eq!(wait_verdict(120, 1, false), WaitVerdict::Retry);
    assert_eq!(wait_verdict(120, 119, false), WaitVerdict::Retry);
    assert_eq!(wait_verdict(120, 120, false), WaitVerdict::TimedOut);
    assert_eq!(wait_verdict(1, 1, false), WaitVerdict::TimedOut);
    assert_eq!(wait_verdict(0, 1, false), WaitVerdict::TimedOut);
}

#[test]
fn progress_every_fourth_attempt() {
    assert_eq!(PROGRESS_EVERY, 4);
    let due: Vec<u32> = (1..=12).filter(|a| progress_due(*a)).collect();
    assert_eq!(due, vec![4, 8, 12]);
}

#[test]
fn elapsed_time() {
    assert_eq!(elapsed_millis(120, 500), 60_000);
    assert_eq!(elapsed_secs(120, 500), 60);
    assert_eq!(elapsed_secs(60, 500), 30);
    assert_eq!(elapsed_secs(4, 500), 2);
    assert_eq!(elapsed_secs(3, 500), 1);
    assert_eq!(elapsed_secs(1, 500), 0);
    assert_eq!(elapsed_millis(0, 500), 0);
    assert_eq!(elapsed_millis(u32::MAX, u32::MAX), 18446744065119617025);
}

#[test]
fn a_whole_wait() {
    // the first healthy probe ends the wait; every failed probe before it costs one pause
    let outcomes = [false, false, true, false, true];
    let mut paused = 0u64;
    let mut probes = 0u32;
    let mut ready = false;
    for (i, healthy) in outcomes.iter().enumerate() {
        probes += 1;
        match wait_verdict(120, i as u32 + 1, *healthy) {
            WaitVerdict::Ready => {
                ready = true;
                break;
            }
            WaitVerdict::Retry => paused += 500,
            WaitVerdict::TimedOut => {
                paused += 500;
                break;
            }
        }
    }
    assert!(ready);
    assert_eq!(probes, 3);
    assert_eq!(paused, 1000);
    // no healthy probe: exactly attempts * interval
    let mut paused = 0u64;
    let mut attempt = 0;
    loop {
        attempt += 1;
        match wait_verdict(120, attempt, false) {
            WaitVerdict::Ready => unreachable!(),
            WaitVerdict::Retry => paused += 500,
            WaitVerdict::TimedOut => {
                paused += 500;
                break;
            }
        }
    }
    assert_eq!(attempt, 120);
    assert_eq!(paused, elapsed_millis(120, 500));
}

#[test]
fn status_notices() {
    assert_eq!(BACKEND_STATUS_EVENT, "backend-status");
    assert_eq!(CIRCUIT_RESET_EVENT, "backend-circuit-reset");
    assert_eq!(StatusPhase::Starting.name(), "starting");
    assert_eq!(StatusPhase::Ready.name(), "ready");
    assert_eq!(StatusPhase::Error.name(), "error");
    assert_eq!(StatusEvent::Starting.phase(), StatusPhase::Starting);
    assert_eq!(StatusEvent::Starting.message(), "Starting backend engine…");
    assert_eq!(StatusEvent::Restarting.phase(), StatusPhase::Starting);
    assert_eq!(StatusEvent::Restarting.message(), "Restarting backend engine…");
    let progress = StatusEvent::Progress { elapsed_secs: 12 };
    assert_eq!(progress.phase(), StatusPhase::Starting);
    assert_eq!(progress.message(), "Starting backend engine… (12s)");
    assert_eq!(StatusEvent::Ready.phase(), StatusPhase::Ready);
    assert_eq!(StatusEvent::Ready.message(), "Backend engine ready");
    let failed = StatusEvent::Failed {
        error: LaunchError::ReadinessTimeout {
            service: "Backend".to_string(),
            port: 819,
            waited_secs: 60,
        },
    };
    assert_eq!(failed.phase(), StatusPhase::Error);
    assert_eq!(
        failed.message(),
        "Backend engine failed to start: Backend failed to become ready within 60 seconds. Check that port 819 is not blocked by another application."
    );
    let ai = LaunchError::ReadinessTimeout {
        service: "AI backend".to_string(),
        port: 8081,
        waited_secs: 30,
    };
    assert_eq!(
        ai.message(),
        "AI backend failed to become ready within 30 seconds. Check that port 8081 is not blocked by another application."
    );
    assert_eq!(LaunchError::Spawn { reason: "no such file".to_string() }.message(), "no such file");
}
