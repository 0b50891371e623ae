use framed_bridge::script::{
    db_stream_label, db_stream_should_continue, escape_single_quotes, i64_to_dec,
    scrape_result_counted, scrape_result_failure, scrape_result_unit, scrape_status_result,
    u64_to_dec, ScriptAction, ScriptEvent, ScriptOutcome, ScriptWait,
};

#[test]
fn script_wait_success_path() {
    let mut w = ScriptWait::new(0, 45);
    assert_eq!(w.step(1, ScriptEvent::Running), ScriptAction::SleepPoll);
    assert_eq!(w.step(2, ScriptEvent::Exited(true)), ScriptAction::ReadOutput);
    assert_eq!(w.done, Some(ScriptOutcome::UseOutput));
    assert!(!w.kill_sent);
}

#[test]
fn script_wait_failure_path() {
    let mut w = ScriptWait::new(0, 45);
    assert_eq!(w.step(1, ScriptEvent::Exited(false)), ScriptAction::ReportFailure);
    assert_eq!(w.done, Some(ScriptOutcome::Failed));
}

#[test]
fn script_wait_times_out_with_kill() {
    let mut w = ScriptWait::new(0, 2);
    assert_eq!(w.step(1, ScriptEvent::Running), ScriptAction::SleepPoll);
    assert_eq!(w.step(2, ScriptEvent::Running), ScriptAction::KillAndTimeout);
    assert_eq!(w.done, Some(ScriptOutcome::TimedOut));
    assert!(w.kill_sent);
    // A decided run never changes its mind.
    assert_eq!(w.step(3, ScriptEvent::Exited(true)), ScriptAction::Ignore);
    assert_eq!(w.done, Some(ScriptOutcome::TimedOut));
}

#[test]
fn script_wait_poll_error() {
    let mut w = ScriptWait::new(0, 45);
    assert_eq!(w.step(1, ScriptEvent::PollError), ScriptAction::ReportPollFailure);
    assert_eq!(w.done, Some(ScriptOutcome::PollFailed));
}

#[test]
fn single_quotes_are_escaped() {
    assert_eq!(
        escape_single_quotes(&b"O'Brien & Co's".to_vec()),
        b"O\\'Brien & Co\\'s".to_vec(),
    );
    assert_eq!(escape_single_quotes(&b"plain".to_vec()), b"plain".to_vec());
    assert_eq!(escape_single_quotes(&b"".to_vec()), b"".to_vec());
}

#[test]
fn decimal_rendering() {
    assert_eq!(u64_to_dec(0), b"0".to_vec());
    assert_eq!(u64_to_dec(7), b"7".to_vec());
    assert_eq!(u64_to_dec(11434), b"11434".to_vec());
    assert_eq!(u64_to_dec(u64::MAX), b"18446744073709551615".to_vec());
    assert_eq!(i64_to_dec(-45), b"-45".to_vec());
    assert_eq!(i64_to_dec(10), b"10".to_vec());
    assert_eq!(i64_to_dec(i64::MIN), b"-9223372036854775808".to_vec());
}

#[test]
fn counted_lookup_reads_the_answer() {
    let out = b"{\"success\":true,\"count\":3,\"results\":[\"a\",\"b\",\"c\"]}".to_vec();
    let r = scrape_result_counted(&b"acme".to_vec(), &out, &b"count".to_vec()).unwrap();
    assert!(r.success);
    assert_eq!(r.count, Some(3));
    assert_eq!(r.error, None);
    assert_eq!(r.query, Some(b"acme".to_vec()));
    assert_eq!(r.results, Some(out));
}

#[test]
fn counted_lookup_with_failure_document() {
    let out = b"{\"success\":false,\"error\":\"rate limited\"}".to_vec();
    let r = scrape_result_counted(&b"acme".to_vec(), &out, &b"total_count".to_vec()).unwrap();
    assert!(!r.success);
    assert_eq!(r.count, None);
    assert_eq!(r.error, Some(b"rate limited".to_vec()));
}

#[test]
fn unparseable_answer_is_refused() {
    assert_eq!(
        scrape_result_counted(&b"q".to_vec(), &b"oops".to_vec(), &b"count".to_vec()),
        None,
    );
    assert_eq!(scrape_result_unit(&b"q".to_vec(), &b"[1]".to_vec()), None);
    assert_eq!(scrape_status_result(&b"".to_vec()), None);
}

#[test]
fn unit_lookup_counts_by_success() {
    let ok = scrape_result_unit(&b"TCS".to_vec(), &b"{\"success\":true}".to_vec()).unwrap();
    assert_eq!(ok.count, Some(1));
    let bad = scrape_result_unit(&b"TCS".to_vec(), &b"{\"success\":false}".to_vec()).unwrap();
    assert_eq!(bad.count, Some(0));
    let odd = scrape_result_unit(&b"TCS".to_vec(), &b"{\"success\":\"yes\"}".to_vec()).unwrap();
    // A non-boolean success flag counts as failure.
    assert!(!odd.success);
    assert_eq!(odd.count, Some(0));
}

#[test]
fn script_failure_becomes_an_error_result() {
    let r = scrape_result_failure(&b"acme".to_vec(), &b"Operation timed out".to_vec());
    assert!(!r.success);
    assert_eq!(r.results, None);
    assert_eq!(r.error, Some(b"Operation timed out".to_vec()));
    assert_eq!(r.query, Some(b"acme".to_vec()));
    assert_eq!(r.count, Some(0));
}

#[test]
fn status_result_has_no_query_or_count() {
    let r = scrape_status_result(&b"{\"success\":true,\"scrapers\":2}".to_vec()).unwrap();
    assert!(r.success);
    assert_eq!(r.query, None);
    assert_eq!(r.count, None);
    assert_eq!(r.error, None);
}

#[test]
fn db_stream_decisions() {
    assert_eq!(db_stream_label(1), b"initial".to_vec());
    assert_eq!(db_stream_label(2), b"incremental".to_vec());
    assert_eq!(db_stream_label(100), b"incremental".to_vec());
    assert!(db_stream_should_continue(1));
    assert!(db_stream_should_continue(100));
    assert!(!db_stream_should_continue(101));
}
