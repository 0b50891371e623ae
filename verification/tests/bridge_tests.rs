use framed_bridge::bridge::{Action, Bridge, BridgeConfig, BridgeError, Event, Phase};

fn cfg() -> BridgeConfig {
    BridgeConfig { deadline_ticks: 900, cleanup_ticks: 5, diag_limit: 10, forward_progress: true }
}

fn line(s: &str) -> Event {
    Event::Line(s.as_bytes().to_vec())
}

/// Drives one full transcript and collects the forwarded progress
/// updates; each event carries its own timestamp.
fn run(
    b: &mut Bridge,
    events: Vec<(u64, Event)>,
) -> Vec<framed_bridge::wire::ProgressUpdate> {
    let mut forwards = Vec::new();
    for (at, ev) in events {
        if let Action::Forward(p) = b.step(at, ev) {
            forwards.push(p);
        }
    }
    forwards
}

#[test]
fn document_analysis_round_trip() {
    let mut b = Bridge::new(cfg(), 0);
    let events = vec![
        (0, Event::SpawnOk),
        (1, Event::WriteOk),
        (
            2,
            line("{\"status\":\"progress\",\"currentPage\":1,\"totalPages\":3,\"percentage\":33,\"message\":\"page 1\"}"),
        ),
        (
            3,
            line("{\"status\":\"progress\",\"currentPage\":2,\"totalPages\":3,\"percentage\":66,\"message\":\"page 2\"}"),
        ),
        (4, line("{\"status\":\"success\",\"extractedData\":{\"rows\":12}}")),
        (5, Event::DiagClosed),
        (6, Event::ExitDone),
    ];
    let forwards = run(&mut b, events);
    assert_eq!(forwards.len(), 2);
    assert_eq!(forwards[0].percentage, 33);
    assert_eq!(forwards[1].percentage, 66);
    assert_eq!(b.phase(), Phase::Done);
    match b.outcome() {
        Some(Ok(t)) => {
            assert_eq!(t.status, b"success".to_vec());
            assert_eq!(t.extracted_data, Some(b"{\"rows\":12}".to_vec()));
        },
        other => panic!("expected success, got {:?}", other),
    }
}

#[test]
fn hung_worker_times_out_and_is_killed() {
    let mut b = Bridge::new(
        BridgeConfig { deadline_ticks: 2, cleanup_ticks: 5, diag_limit: 10, forward_progress: true },
        0,
    );
    assert_eq!(b.step(0, Event::SpawnOk), Action::SendRequest);
    assert_eq!(b.step(0, Event::WriteOk), Action::AwaitLine);
    assert_eq!(b.step(1, Event::Silence), Action::AwaitLine);
    // The first poll at or past the deadline kills the worker.
    assert_eq!(b.step(2, Event::Silence), Action::KillDrain);
    match b.outcome() {
        Some(Err(BridgeError::Timeout { elapsed })) => assert_eq!(*elapsed, 2),
        other => panic!("expected timeout, got {:?}", other),
    }
    // Reaping still runs, and the call only returns once the worker is
    // confirmed dead or killed again.
    assert_eq!(b.step(2, Event::DiagClosed), Action::PollExit);
    assert_eq!(b.step(3, Event::ExitRunning), Action::SleepPoll);
    assert_eq!(b.step(8, Event::ExitRunning), Action::KillPoll);
    assert_eq!(b.step(8, Event::ExitDone), Action::Finish);
    assert_eq!(b.phase(), Phase::Done);
    match b.outcome() {
        Some(Err(BridgeError::Timeout { elapsed: 2 })) => {},
        other => panic!("expected timeout to stand, got {:?}", other),
    }
}

#[test]
fn silent_exit_is_no_response() {
    let mut b = Bridge::new(cfg(), 0);
    b.step(0, Event::SpawnOk);
    b.step(0, Event::WriteOk);
    assert_eq!(b.step(1, Event::OutputClosed), Action::DrainDiag);
    match b.outcome() {
        Some(Err(BridgeError::NoResponse)) => {},
        other => panic!("expected no-response, got {:?}", other),
    }
    b.step(1, Event::DiagClosed);
    assert_eq!(b.step(1, Event::ExitDone), Action::Finish);
    assert_eq!(b.phase(), Phase::Done);
}

#[test]
fn spawn_failure_is_launch_failure() {
    let mut b = Bridge::new(cfg(), 0);
    assert_eq!(b.step(0, Event::SpawnFailed), Action::Finish);
    assert_eq!(b.phase(), Phase::Done);
    match b.outcome() {
        Some(Err(BridgeError::LaunchFailure)) => {},
        other => panic!("expected launch failure, got {:?}", other),
    }
}

#[test]
fn write_failure_still_reaps() {
    let mut b = Bridge::new(cfg(), 0);
    b.step(0, Event::SpawnOk);
    assert_eq!(b.step(1, Event::WriteFailed), Action::DrainDiag);
    assert_eq!(b.step(1, Event::DiagClosed), Action::PollExit);
    assert_eq!(b.step(2, Event::ExitDone), Action::Finish);
    match b.outcome() {
        Some(Err(BridgeError::WriteFailure)) => {},
        other => panic!("expected write failure, got {:?}", other),
    }
}

#[test]
fn lines_after_terminal_are_not_forwarded() {
    let mut b = Bridge::new(cfg(), 0);
    b.step(0, Event::SpawnOk);
    b.step(0, Event::WriteOk);
    assert_eq!(b.step(1, line("{\"status\":\"success\"}")), Action::DrainDiag);
    // A progress-shaped line arriving after the terminal response does
    // not reopen the loop and is not forwarded.
    let a = b.step(
        2,
        line("{\"status\":\"progress\",\"currentPage\":1,\"totalPages\":1,\"percentage\":100,\"message\":\"late\"}"),
    );
    assert_eq!(a, Action::Ignore);
    match b.outcome() {
        Some(Ok(t)) => assert_eq!(t.status, b"success".to_vec()),
        other => panic!("expected success to stand, got {:?}", other),
    }
}

#[test]
fn noise_lines_do_not_change_the_outcome() {
    let with_noise = vec![
        (0, Event::SpawnOk),
        (0, Event::WriteOk),
        (1, line("DEBUG: loading model...")),
        (
            2,
            line("{\"status\":\"progress\",\"currentPage\":1,\"totalPages\":1,\"percentage\":50,\"message\":\"m\"}"),
        ),
        (3, line("warning: deprecated flag")),
        (4, line("{\"status\":\"success\"}")),
        (5, Event::DiagClosed),
        (5, Event::ExitDone),
    ];
    let without_noise = vec![
        (0, Event::SpawnOk),
        (0, Event::WriteOk),
        (
            2,
            line("{\"status\":\"progress\",\"currentPage\":1,\"totalPages\":1,\"percentage\":50,\"message\":\"m\"}"),
        ),
        (4, line("{\"status\":\"success\"}")),
        (5, Event::DiagClosed),
        (5, Event::ExitDone),
    ];
    let mut b1 = Bridge::new(cfg(), 0);
    let f1 = run(&mut b1, with_noise);
    let mut b2 = Bridge::new(cfg(), 0);
    let f2 = run(&mut b2, without_noise);
    assert_eq!(f1, f2);
    assert_eq!(b1.outcome(), b2.outcome());
    assert_eq!(b1.phase(), b2.phase());
}

#[test]
fn two_identical_calls_yield_identical_outcomes() {
    let transcript = || vec![
        (0, Event::SpawnOk),
        (0, Event::WriteOk),
        (
            1,
            line("{\"status\":\"progress\",\"currentPage\":1,\"totalPages\":1,\"percentage\":100,\"message\":\"m\"}"),
        ),
        (2, line("{\"status\":\"success\",\"extractedData\":[1]}")),
        (3, Event::DiagClosed),
        (3, Event::ExitDone),
    ];
    let mut b1 = Bridge::new(cfg(), 0);
    let f1 = run(&mut b1, transcript());
    let mut b2 = Bridge::new(cfg(), 0);
    let f2 = run(&mut b2, transcript());
    assert_eq!(b1.outcome(), b2.outcome());
    assert_eq!(f1, f2);
    assert_eq!(b1.phase(), Phase::Done);
}

#[test]
fn diagnostic_drain_is_bounded() {
    let mut b = Bridge::new(cfg(), 0);
    b.step(0, Event::SpawnOk);
    b.step(0, Event::WriteOk);
    b.step(1, Event::OutputClosed);
    for _ in 0..9 {
        assert_eq!(b.step(1, Event::DiagLine), Action::DrainDiag);
    }
    // The tenth drained line exhausts the limit.
    assert_eq!(b.step(1, Event::DiagLine), Action::PollExit);
    assert_eq!(b.step(2, Event::ExitDone), Action::Finish);
}

#[test]
fn cleanup_window_elapses_then_kill() {
    let mut b = Bridge::new(
        BridgeConfig { deadline_ticks: 100, cleanup_ticks: 5, diag_limit: 10, forward_progress: true },
        0,
    );
    b.step(0, Event::SpawnOk);
    b.step(0, Event::WriteOk);
    b.step(1, line("{\"status\":\"success\"}"));
    // Cleanup window starts when draining ends, at tick 2.
    assert_eq!(b.step(2, Event::DiagClosed), Action::PollExit);
    assert_eq!(b.step(3, Event::ExitRunning), Action::SleepPoll);
    assert_eq!(b.step(6, Event::ExitRunning), Action::SleepPoll);
    assert_eq!(b.step(7, Event::ExitRunning), Action::KillPoll);
    assert_eq!(b.step(7, Event::ExitRunning), Action::Finish);
    assert_eq!(b.phase(), Phase::Done);
    match b.outcome() {
        Some(Ok(t)) => assert_eq!(t.status, b"success".to_vec()),
        other => panic!("expected the response to stand, got {:?}", other),
    }
}

#[test]
fn no_progress_mode_takes_first_statusful_line() {
    let mut b = Bridge::new(
        BridgeConfig { deadline_ticks: 60, cleanup_ticks: 5, diag_limit: 10, forward_progress: false },
        0,
    );
    b.step(0, Event::SpawnOk);
    b.step(0, Event::WriteOk);
    let a = b.step(
        1,
        line("{\"status\":\"progress\",\"currentPage\":1,\"totalPages\":2,\"percentage\":50,\"message\":\"m\"}"),
    );
    // Without progress forwarding, the first terminal-shaped line wins,
    // even one that spells progress.
    assert_eq!(a, Action::DrainDiag);
    match b.outcome() {
        Some(Ok(t)) => assert_eq!(t.status, b"progress".to_vec()),
        other => panic!("expected terminal, got {:?}", other),
    }
}

#[test]
fn error_descriptions_are_stable() {
    assert_eq!(
        BridgeError::LaunchFailure.describe(),
        "worker could not be started".to_string(),
    );
    assert_eq!(
        BridgeError::WriteFailure.describe(),
        "request could not be written to the worker".to_string(),
    );
    assert_eq!(
        BridgeError::Timeout { elapsed: 7 }.describe(),
        "worker timed out; the input may be very large".to_string(),
    );
    assert_eq!(
        BridgeError::NoResponse.describe(),
        "no response from worker; it may have crashed".to_string(),
    );
}
