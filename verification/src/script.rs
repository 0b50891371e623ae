//! One-shot script calls: the poll-for-exit supervision of a scripted
//! worker that answers on its output channel once, the quoting of
//! values interpolated into such a script, and the reading of its
//! answer document.

use vstd::prelude::*;
use crate::json::{find_key_last, spec_top_entries, top_entries, TokKind, TokKindS};
use crate::wire::clone_bytes;

verus! {

/// "success"
pub open spec fn kw_success() -> Seq<u8> {
    seq![115u8, 117u8, 99u8, 99u8, 101u8, 115u8, 115u8]
}

pub fn kw_success_bytes() -> (v: Vec<u8>)
    ensures
        v@ == kw_success(),
{
    let v: Vec<u8> = vec![115, 117, 99, 99, 101, 115, 115];
    assert(v@ =~= kw_success());
    v
}

/// "initial"
pub open spec fn kw_initial() -> Seq<u8> {
    seq![105u8, 110u8, 105u8, 116u8, 105u8, 97u8, 108u8]
}

/// "incremental"
pub open spec fn kw_incremental() -> Seq<u8> {
    seq![105u8, 110u8, 99u8, 114u8, 101u8, 109u8, 101u8, 110u8, 116u8, 97u8, 108u8]
}

/// Supervision of one script run: the driver polls for exit and reports
/// what it sees; the machine decides when to give up and kill.
pub struct ScriptWait {
    /// When the run began.
    pub start: u64,
    /// The absolute instant past which the script is killed.
    pub timeout_at: u64,
    /// The decision, once made.
    pub done: Option<ScriptOutcome>,
    /// Whether a forced kill was issued.
    pub kill_sent: bool,
}

/// How a script run ends.
#[derive(Debug, Clone, Copy, PartialEq, Eq)]
pub enum ScriptOutcome {
    /// The script exited successfully; its output is the answer.
    UseOutput,
    /// The script exited with a failure status.
    Failed,
    /// The deadline passed; the script was killed.
    TimedOut,
    /// The status of the process could not be checked.
    PollFailed,
}

/// What an exit poll found.
#[derive(Debug, Clone, Copy, PartialEq, Eq)]
pub enum ScriptEvent {
    /// The script exited; true means a success status.
    Exited(bool),
    /// Still running.
    Running,
    /// The poll itself failed.
    PollError,
}

/// What the driver must do next.
#[derive(Debug, Clone, Copy, PartialEq, Eq)]
pub enum ScriptAction {
    /// Read the script's whole output; it is the result.
    ReadOutput,
    /// Report the script's failure, with its diagnostic output.
    ReportFailure,
    /// Kill the script, then report a timeout.
    KillAndTimeout,
    /// Sleep briefly, then poll again.
    SleepPoll,
    /// Report that the wait itself failed.
    ReportPollFailure,
    /// The run is already decided; nothing to do.
    Ignore,
}

/// The transition relation of the script wait.
pub open spec fn spec_script_step(m: ScriptWait, now: u64, ev: ScriptEvent) -> (
    ScriptWait,
    ScriptAction,
) {
    if m.done is Some {
        (m, ScriptAction::Ignore)
    } else {
        match ev {
            ScriptEvent::Exited(ok) => if ok {
                (
                    ScriptWait { done: Some(ScriptOutcome::UseOutput), ..m },
                    ScriptAction::ReadOutput,
                )
            } else {
                (
                    ScriptWait { done: Some(ScriptOutcome::Failed), ..m },
                    ScriptAction::ReportFailure,
                )
            },
            ScriptEvent::Running => if now >= m.timeout_at {
                (
                    ScriptWait { done: Some(ScriptOutcome::TimedOut), kill_sent: true, ..m },
                    ScriptAction::KillAndTimeout,
                )
            } else {
                (m, ScriptAction::SleepPoll)
            },
            ScriptEvent::PollError => (
                ScriptWait { done: Some(ScriptOutcome::PollFailed), ..m },
                ScriptAction::ReportPollFailure,
            ),
        }
    }
}

impl ScriptWait {
    /// A fresh wait with the whole budget ahead of it.
    pub fn new(now: u64, timeout_ticks: u64) -> (m: ScriptWait)
        ensures
            m.start == now,
            m.timeout_at == crate::bridge::sat_add(now, timeout_ticks),
            m.done is None,
            !m.kill_sent,
    {
        let timeout_at = if now <= u64::MAX - timeout_ticks {
            now + timeout_ticks
        } else {
            u64::MAX
        };
        ScriptWait { start: now, timeout_at, done: None, kill_sent: false }
    }

    /// Feeds one poll result; the new state and the action are exactly
    /// those of [`spec_script_step`].  In particular, the run only ever
    /// times out together with a kill, and a decided run never changes
    /// its mind.
    pub fn step(&mut self, now: u64, ev: ScriptEvent) -> (a: ScriptAction)
        ensures
            *final(self) == spec_script_step(*old(self), now, ev).0,
            a == spec_script_step(*old(self), now, ev).1,
            old(self).done is None && ev is Running && now >= old(self).timeout_at
                ==> final(self).kill_sent && final(self).done == Some(ScriptOutcome::TimedOut),
            old(self).done is Some ==> final(self).done == old(self).done,
    {
        if self.done.is_some() {
            return ScriptAction::Ignore;
        }
        match ev {
            ScriptEvent::Exited(ok) => {
                if ok {
                    self.done = Some(ScriptOutcome::UseOutput);
                    ScriptAction::ReadOutput
                } else {
                    self.done = Some(ScriptOutcome::Failed);
                    ScriptAction::ReportFailure
                }
            },
            ScriptEvent::Running => {
                if now >= self.timeout_at {
                    self.done = Some(ScriptOutcome::TimedOut);
                    self.kill_sent = true;
                    ScriptAction::KillAndTimeout
                } else {
                    ScriptAction::SleepPoll
                }
            },
            ScriptEvent::PollError => {
                self.done = Some(ScriptOutcome::PollFailed);
                ScriptAction::ReportPollFailure
            },
        }
    }
}

/// How one byte is written inside a single-quoted script argument: a
/// single quote is escaped with a backslash, everything else stands.
pub open spec fn quote_byte(c: u8) -> Seq<u8> {
    if c == 39 {
        seq![92u8, 39u8]
    } else {
        seq![c]
    }
}

pub open spec fn spec_escape_single_quotes(s: Seq<u8>) -> Seq<u8>
    decreases s.len(),
{
    if s.len() == 0 {
        Seq::empty()
    } else {
        spec_escape_single_quotes(s.drop_last()) + quote_byte(s.last())
    }
}

/// Escapes single quotes in a value interpolated into a single-quoted
/// script argument.
pub fn escape_single_quotes(s: &Vec<u8>) -> (out: Vec<u8>)
    ensures
        out@ == spec_escape_single_quotes(s@),
{
    let mut out: Vec<u8> = Vec::new();
    let mut i: usize = 0;
    while i < s.len()
        invariant
            i <= s@.len(),
            out@ == spec_escape_single_quotes(s@.take(i as int)),
        decreases s@.len() - i,
    {
        let c = s[i];
        let ghost pre = s@.take(i as int);
        if c == 39 {
            out.push(92);
            out.push(39);
        } else {
            out.push(c);
        }
        proof {
            let cur = s@.take(i + 1);
            assert(cur.drop_last() =~= pre);
            assert(cur.last() == c);
            assert(out@ =~= spec_escape_single_quotes(pre) + quote_byte(c));
        }
        i = i + 1;
    }
    assert(s@.take(s@.len() as int) =~= s@);
    out
}

/// The decimal digits of `n`.
pub open spec fn dec_digits(n: nat) -> Seq<u8>
    decreases n,
{
    if n < 10 {
        seq![(48 + n) as u8]
    } else {
        dec_digits(n / 10) + seq![(48 + n % 10) as u8]
    }
}

/// Renders `n` in decimal.
pub fn u64_to_dec(n: u64) -> (out: Vec<u8>)
    ensures
        out@ == dec_digits(n as nat),
    decreases n,
{
    if n < 10 {
        let out: Vec<u8> = vec![48 + (n as u8)];
        assert(out@ =~= dec_digits(n as nat));
        out
    } else {
        let mut out = u64_to_dec(n / 10);
        out.push(48 + ((n % 10) as u8));
        assert(out@ =~= dec_digits(n as nat));
        out
    }
}

/// Renders `n` in decimal, with a leading minus sign when negative.
pub fn i64_to_dec(n: i64) -> (out: Vec<u8>)
    ensures
        n >= 0 ==> out@ == dec_digits(n as nat),
        n < 0 ==> out@ == seq![45u8] + dec_digits((-(n as int)) as nat),
{
    if n >= 0 {
        u64_to_dec(n as u64)
    } else {
        let mag: u64 = if n == i64::MIN {
            9223372036854775808
        } else {
            (-n) as u64
        };
        let mut out: Vec<u8> = vec![45];
        let digits = u64_to_dec(mag);
        crate::request::push_all(&mut out, &digits);
        assert(out@ =~= seq![45u8] + dec_digits((-(n as int)) as nat));
        out
    }
}

/// What a lookup-class scripted call answered, read from the single
/// JSON document it printed.
#[derive(Debug, Clone, PartialEq, Eq)]
pub struct CompanySearchResult {
    pub success: bool,
    /// The whole answer document, as raw JSON text.
    pub results: Option<Vec<u8>>,
    pub error: Option<Vec<u8>>,
    pub query: Option<Vec<u8>>,
    pub count: Option<i32>,
}

pub struct CompanySearchResultS {
    pub success: bool,
    pub results: Option<Seq<u8>>,
    pub error: Option<Seq<u8>>,
    pub query: Option<Seq<u8>>,
    pub count: Option<i32>,
}

impl View for CompanySearchResult {
    type V = CompanySearchResultS;

    open spec fn view(&self) -> CompanySearchResultS {
        CompanySearchResultS {
            success: self.success,
            results: match self.results {
                Some(ref b) => Some(b@),
                None => None,
            },
            error: match self.error {
                Some(ref b) => Some(b@),
                None => None,
            },
            query: match self.query {
                Some(ref b) => Some(b@),
                None => None,
            },
            count: match self.count {
                Some(ref b) => Some(*b),
                None => None,
            },
        }
    }
}

/// The `success` flag of an answer document: its last `success` member
/// when that is a boolean, else false.
pub open spec fn spec_doc_success(es: Seq<crate::json::EntryS>) -> bool {
    match find_key_last(es, kw_success()) {
        Some(t) => match t.kind {
            TokKindS::Bool(b) => b,
            _ => false,
        },
        None => false,
    }
}

/// The last member under `key` when it is a string.
pub open spec fn spec_doc_str(es: Seq<crate::json::EntryS>, key: Seq<u8>) -> Option<Seq<u8>> {
    match find_key_last(es, key) {
        Some(t) => match t.kind {
            TokKindS::Str(c) => Some(c),
            _ => None::<Seq<u8>>,
        },
        None => None::<Seq<u8>>,
    }
}

/// The last member under `key` when it is a plain integer.
pub open spec fn spec_doc_int(es: Seq<crate::json::EntryS>, key: Seq<u8>) -> Option<i32> {
    match find_key_last(es, key) {
        Some(t) => match t.kind {
            TokKindS::Int(x) => Some(x),
            _ => None::<i32>,
        },
        None => None::<i32>,
    }
}

/// The result of a counted lookup (a company search, a web search),
/// read from the answer document: `success` and `count` from the
/// document, the error string if the document carries one, the whole
/// document as the results payload, and the caller's query echoed
/// back.  `None` exactly when the output is not a single JSON object.
pub fn scrape_result_counted(query: &Vec<u8>, out: &Vec<u8>, count_key: &Vec<u8>) -> (r: Option<
    CompanySearchResult,
>)
    ensures
        match r {
            Some(res) => spec_top_entries(out@) matches Some(es) && res@
                == (CompanySearchResultS {
                success: spec_doc_success(es),
                results: Some(out@),
                error: spec_doc_str(es, crate::wire::kw_error()),
                query: Some(query@),
                count: spec_doc_int(es, count_key@),
            }),
            None => spec_top_entries(out@) is None,
        },
{
    let es = match top_entries(out) {
        None => {
            return None;
        },
        Some(es) => es,
    };
    let success = match crate::json::lookup_last(&es, &kw_success_bytes()) {
        Some(j) => match &es[j].val.kind {
            TokKind::Bool(b) => *b,
            _ => false,
        },
        None => false,
    };
    let error = match crate::json::lookup_last(&es, &crate::wire::kw_error_bytes()) {
        Some(j) => match &es[j].val.kind {
            TokKind::Str(c) => Some(clone_bytes(c)),
            _ => None,
        },
        None => None,
    };
    let count = match crate::json::lookup_last(&es, count_key) {
        Some(j) => match &es[j].val.kind {
            TokKind::Int(x) => Some(*x),
            _ => None,
        },
        None => None,
    };
    Some(
        CompanySearchResult {
            success,
            results: Some(clone_bytes(out)),
            error,
            query: Some(clone_bytes(query)),
            count,
        },
    )
}

/// The result of a single-subject lookup (company details, a stock
/// quote): as the counted form, but the count is one on success and
/// zero otherwise.
pub fn scrape_result_unit(query: &Vec<u8>, out: &Vec<u8>) -> (r: Option<CompanySearchResult>)
    ensures
        match r {
            Some(res) => spec_top_entries(out@) matches Some(es) && res@
                == (CompanySearchResultS {
                success: spec_doc_success(es),
                results: Some(out@),
                error: spec_doc_str(es, crate::wire::kw_error()),
                query: Some(query@),
                count: Some(
                    if spec_doc_success(es) {
                        1i32
                    } else {
                        0i32
                    },
                ),
            }),
            None => spec_top_entries(out@) is None,
        },
{
    let es = match top_entries(out) {
        None => {
            return None;
        },
        Some(es) => es,
    };
    let success = match crate::json::lookup_last(&es, &kw_success_bytes()) {
        Some(j) => match &es[j].val.kind {
            TokKind::Bool(b) => *b,
            _ => false,
        },
        None => false,
    };
    let error = match crate::json::lookup_last(&es, &crate::wire::kw_error_bytes()) {
        Some(j) => match &es[j].val.kind {
            TokKind::Str(c) => Some(clone_bytes(c)),
            _ => None,
        },
        None => None,
    };
    let count: i32 = if success {
        1
    } else {
        0
    };
    Some(
        CompanySearchResult {
            success,
            results: Some(clone_bytes(out)),
            error,
            query: Some(clone_bytes(query)),
            count: Some(count),
        },
    )
}

/// The result reported when the script itself failed: no payload, the
/// failure text as the error, a zero count.
pub fn scrape_result_failure(query: &Vec<u8>, failure: &Vec<u8>) -> (r: CompanySearchResult)
    ensures
        r@ == (CompanySearchResultS {
            success: false,
            results: None,
            error: Some(failure@),
            query: Some(query@),
            count: Some(0i32),
        }),
{
    CompanySearchResult {
        success: false,
        results: None,
        error: Some(clone_bytes(failure)),
        query: Some(clone_bytes(query)),
        count: Some(0),
    }
}

/// The status report of the scraper: the document itself with its
/// `success` flag; no error, query or count accompany it.
pub fn scrape_status_result(out: &Vec<u8>) -> (r: Option<CompanySearchResult>)
    ensures
        match r {
            Some(res) => spec_top_entries(out@) matches Some(es) && res@
                == (CompanySearchResultS {
                success: spec_doc_success(es),
                results: Some(out@),
                error: None,
                query: None,
                count: None,
            }),
            None => spec_top_entries(out@) is None,
        },
{
    let es = match top_entries(out) {
        None => {
            return None;
        },
        Some(es) => es,
    };
    let success = match crate::json::lookup_last(&es, &kw_success_bytes()) {
        Some(j) => match &es[j].val.kind {
            TokKind::Bool(b) => *b,
            _ => false,
        },
        None => false,
    };
    Some(
        CompanySearchResult {
            success,
            results: Some(clone_bytes(out)),
            error: None,
            query: None,
            count: None,
        },
    )
}

/// One broadcast row-set update of the periodic database poll.  The
/// payload is raw JSON text.
#[derive(Debug, Clone, PartialEq, Eq)]
pub struct DatabaseUpdate {
    pub action: Vec<u8>,
    pub table: Vec<u8>,
    pub row_id: Option<i64>,
    pub data: Option<Vec<u8>>,
}

/// The label of the `n`-th broadcast of the periodic database poll:
/// the first is `initial`, the rest are `incremental`.
pub fn db_stream_label(counter: u64) -> (r: Vec<u8>)
    ensures
        counter == 1 ==> r@ == kw_initial(),
        counter != 1 ==> r@ == kw_incremental(),
{
    if counter == 1 {
        let v: Vec<u8> = vec![105, 110, 105, 116, 105, 97, 108];
        assert(v@ =~= kw_initial());
        v
    } else {
        let v: Vec<u8> = vec![105, 110, 99, 114, 101, 109, 101, 110, 116, 97, 108];
        assert(v@ =~= kw_incremental());
        v
    }
}

/// Whether the periodic database poll runs another iteration: it stops
/// after the hundredth.
pub fn db_stream_should_continue(counter: u64) -> (r: bool)
    ensures
        r == (counter <= 100),
{
    counter <= 100
}

} // verus!
