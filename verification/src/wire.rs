//! Message shapes of the worker protocol, and the line classifier.
//!
//! A worker writes newline-delimited JSON objects.  Each line is
//! classified once: as a progress update, as a terminal response, or as
//! noise (diagnostic prints, banners, unrecognised output).  String
//! contents are carried as the raw bytes between their quotes; nested
//! payloads are carried as their raw JSON text, for an unverified
//! boundary to decode.

use vstd::prelude::*;
use crate::json::{
    find_key, find_key_last, key_count, lookup, lookup_last, spec_top_entries, top_entries,
    view_entries, Entry, EntryS, TokKind, TokKindS, TokS,
};

verus! {

/// "status"
pub open spec fn kw_status() -> Seq<u8> {
    seq![115u8, 116u8, 97u8, 116u8, 117u8, 115u8]
}

/// "progress"
pub open spec fn kw_progress() -> Seq<u8> {
    seq![112u8, 114u8, 111u8, 103u8, 114u8, 101u8, 115u8, 115u8]
}

/// "currentPage"
pub open spec fn kw_current_page() -> Seq<u8> {
    seq![99u8, 117u8, 114u8, 114u8, 101u8, 110u8, 116u8, 80u8, 97u8, 103u8, 101u8]
}

/// "totalPages"
pub open spec fn kw_total_pages() -> Seq<u8> {
    seq![116u8, 111u8, 116u8, 97u8, 108u8, 80u8, 97u8, 103u8, 101u8, 115u8]
}

/// "percentage"
pub open spec fn kw_percentage() -> Seq<u8> {
    seq![112u8, 101u8, 114u8, 99u8, 101u8, 110u8, 116u8, 97u8, 103u8, 101u8]
}

/// "message"
pub open spec fn kw_message() -> Seq<u8> {
    seq![109u8, 101u8, 115u8, 115u8, 97u8, 103u8, 101u8]
}

/// "partialItems"
pub open spec fn kw_partial_items() -> Seq<u8> {
    seq![112u8, 97u8, 114u8, 116u8, 105u8, 97u8, 108u8, 73u8, 116u8, 101u8, 109u8, 115u8]
}

/// "partialText"
pub open spec fn kw_partial_text() -> Seq<u8> {
    seq![112u8, 97u8, 114u8, 116u8, 105u8, 97u8, 108u8, 84u8, 101u8, 120u8, 116u8]
}

/// "extractedData"
pub open spec fn kw_extracted_data() -> Seq<u8> {
    seq![101u8, 120u8, 116u8, 114u8, 97u8, 99u8, 116u8, 101u8, 100u8, 68u8, 97u8, 116u8, 97u8]
}

/// "metrics"
pub open spec fn kw_metrics() -> Seq<u8> {
    seq![109u8, 101u8, 116u8, 114u8, 105u8, 99u8, 115u8]
}

/// "metadata"
pub open spec fn kw_metadata() -> Seq<u8> {
    seq![109u8, 101u8, 116u8, 97u8, 100u8, 97u8, 116u8, 97u8]
}

/// "error"
pub open spec fn kw_error() -> Seq<u8> {
    seq![101u8, 114u8, 114u8, 111u8, 114u8]
}

/// "done"
pub open spec fn kw_done() -> Seq<u8> {
    seq![100u8, 111u8, 110u8, 101u8]
}

/// "content"
pub open spec fn kw_content() -> Seq<u8> {
    seq![99u8, 111u8, 110u8, 116u8, 101u8, 110u8, 116u8]
}

pub fn kw_status_bytes() -> (v: Vec<u8>)
    ensures
        v@ == kw_status(),
{
    let v: Vec<u8> = vec![115, 116, 97, 116, 117, 115];
    assert(v@ =~= kw_status());
    v
}

pub fn kw_progress_bytes() -> (v: Vec<u8>)
    ensures
        v@ == kw_progress(),
{
    let v: Vec<u8> = vec![112, 114, 111, 103, 114, 101, 115, 115];
    assert(v@ =~= kw_progress());
    v
}

pub fn kw_current_page_bytes() -> (v: Vec<u8>)
    ensures
        v@ == kw_current_page(),
{
    let v: Vec<u8> = vec![99, 117, 114, 114, 101, 110, 116, 80, 97, 103, 101];
    assert(v@ =~= kw_current_page());
    v
}

pub fn kw_total_pages_bytes() -> (v: Vec<u8>)
    ensures
        v@ == kw_total_pages(),
{
    let v: Vec<u8> = vec![116, 111, 116, 97, 108, 80, 97, 103, 101, 115];
    assert(v@ =~= kw_total_pages());
    v
}

pub fn kw_percentage_bytes() -> (v: Vec<u8>)
    ensures
        v@ == kw_percentage(),
{
    let v: Vec<u8> = vec![112, 101, 114, 99, 101, 110, 116, 97, 103, 101];
    assert(v@ =~= kw_percentage());
    v
}

pub fn kw_message_bytes() -> (v: Vec<u8>)
    ensures
        v@ == kw_message(),
{
    let v: Vec<u8> = vec![109, 101, 115, 115, 97, 103, 101];
    assert(v@ =~= kw_message());
    v
}

pub fn kw_partial_items_bytes() -> (v: Vec<u8>)
    ensures
        v@ == kw_partial_items(),
{
    let v: Vec<u8> = vec![112, 97, 114, 116, 105, 97, 108, 73, 116, 101, 109, 115];
    assert(v@ =~= kw_partial_items());
    v
}

pub fn kw_partial_text_bytes() -> (v: Vec<u8>)
    ensures
        v@ == kw_partial_text(),
{
    let v: Vec<u8> = vec![112, 97, 114, 116, 105, 97, 108, 84, 101, 120, 116];
    assert(v@ =~= kw_partial_text());
    v
}

pub fn kw_extracted_data_bytes() -> (v: Vec<u8>)
    ensures
        v@ == kw_extracted_data(),
{
    let v: Vec<u8> = vec![101, 120, 116, 114, 97, 99, 116, 101, 100, 68, 97, 116, 97];
    assert(v@ =~= kw_extracted_data());
    v
}

pub fn kw_metrics_bytes() -> (v: Vec<u8>)
    ensures
        v@ == kw_metrics(),
{
    let v: Vec<u8> = vec![109, 101, 116, 114, 105, 99, 115];
    assert(v@ =~= kw_metrics());
    v
}

pub fn kw_metadata_bytes() -> (v: Vec<u8>)
    ensures
        v@ == kw_metadata(),
{
    let v: Vec<u8> = vec![109, 101, 116, 97, 100, 97, 116, 97];
    assert(v@ =~= kw_metadata());
    v
}

pub fn kw_error_bytes() -> (v: Vec<u8>)
    ensures
        v@ == kw_error(),
{
    let v: Vec<u8> = vec![101, 114, 114, 111, 114];
    assert(v@ =~= kw_error());
    v
}

pub fn kw_done_bytes() -> (v: Vec<u8>)
    ensures
        v@ == kw_done(),
{
    let v: Vec<u8> = vec![100, 111, 110, 101];
    assert(v@ =~= kw_done());
    v
}

pub fn kw_content_bytes() -> (v: Vec<u8>)
    ensures
        v@ == kw_content(),
{
    let v: Vec<u8> = vec![99, 111, 110, 116, 101, 110, 116];
    assert(v@ =~= kw_content());
    v
}

/// Copies a byte vector.
pub fn clone_bytes(v: &Vec<u8>) -> (r: Vec<u8>)
    ensures
        r@ == v@,
{
    vstd::slice::slice_to_vec(v.as_slice())
}

pub open spec fn is_str_tok(o: Option<TokS>) -> bool {
    o matches Some(t) && t.kind is Str
}

pub open spec fn is_int_tok(o: Option<TokS>) -> bool {
    o matches Some(t) && t.kind is Int
}

pub open spec fn tok_str(t: TokS) -> Seq<u8> {
    match t.kind {
        TokKindS::Str(c) => c,
        _ => Seq::<u8>::empty(),
    }
}

pub open spec fn tok_int(t: TokS) -> i32 {
    match t.kind {
        TokKindS::Int(x) => x,
        _ => 0,
    }
}

pub open spec fn opt_tok_str(o: Option<TokS>) -> Seq<u8> {
    match o {
        Some(t) => tok_str(t),
        None => Seq::<u8>::empty(),
    }
}

pub open spec fn opt_tok_int(o: Option<TokS>) -> i32 {
    match o {
        Some(t) => tok_int(t),
        None => 0,
    }
}

/// A progress update: an in-band, non-terminal status message describing
/// partial completion.  Payload fields carry raw JSON text.
#[derive(Debug, Clone, PartialEq, Eq)]
pub struct ProgressUpdate {
    pub status: Vec<u8>,
    pub current_page: i32,
    pub total_pages: i32,
    pub percentage: i32,
    pub message: Vec<u8>,
    pub partial_items: Option<Vec<u8>>,
    pub partial_text: Option<Vec<u8>>,
}

pub struct ProgressUpdateS {
    pub status: Seq<u8>,
    pub current_page: i32,
    pub total_pages: i32,
    pub percentage: i32,
    pub message: Seq<u8>,
    pub partial_items: Option<Seq<u8>>,
    pub partial_text: Option<Seq<u8>>,
}

impl View for ProgressUpdate {
    type V = ProgressUpdateS;

    open spec fn view(&self) -> ProgressUpdateS {
        ProgressUpdateS {
            status: self.status@,
            current_page: self.current_page,
            total_pages: self.total_pages,
            percentage: self.percentage,
            message: self.message@,
            partial_items: match self.partial_items {
                Some(ref b) => Some(b@),
                None => None,
            },
            partial_text: match self.partial_text {
                Some(ref b) => Some(b@),
                None => None,
            },
        }
    }
}

/// A terminal response: the single authoritative result message that ends
/// the read loop.  Payload fields carry raw JSON text.
#[derive(Debug, Clone, PartialEq, Eq)]
pub struct PythonResponse {
    pub status: Vec<u8>,
    pub extracted_data: Option<Vec<u8>>,
    pub metrics: Option<Vec<u8>>,
    pub metadata: Option<Vec<u8>>,
    pub message: Option<Vec<u8>>,
    pub error: Option<Vec<u8>>,
}

pub struct PythonResponseS {
    pub status: Seq<u8>,
    pub extracted_data: Option<Seq<u8>>,
    pub metrics: Option<Seq<u8>>,
    pub metadata: Option<Seq<u8>>,
    pub message: Option<Seq<u8>>,
    pub error: Option<Seq<u8>>,
}

impl View for PythonResponse {
    type V = PythonResponseS;

    open spec fn view(&self) -> PythonResponseS {
        PythonResponseS {
            status: self.status@,
            extracted_data: match self.extracted_data {
                Some(ref b) => Some(b@),
                None => None,
            },
            metrics: match self.metrics {
                Some(ref b) => Some(b@),
                None => None,
            },
            metadata: match self.metadata {
                Some(ref b) => Some(b@),
                None => None,
            },
            message: match self.message {
                Some(ref b) => Some(b@),
                None => None,
            },
            error: match self.error {
                Some(ref b) => Some(b@),
                None => None,
            },
        }
    }
}

/// The progress shape: `status`, `currentPage`, `totalPages`,
/// `percentage` and `message` must each occur exactly once with the
/// right kind; `partialItems` (any value) and `partialText` (a string)
/// may occur at most once; other members are ignored.
pub open spec fn spec_progress_of(es: Seq<EntryS>) -> Option<ProgressUpdateS> {
    let st = find_key(es, kw_status());
    let cp = find_key(es, kw_current_page());
    let tp = find_key(es, kw_total_pages());
    let pc = find_key(es, kw_percentage());
    let ms = find_key(es, kw_message());
    let pi = find_key(es, kw_partial_items());
    let pt = find_key(es, kw_partial_text());
    if key_count(es, kw_status()) == 1 && key_count(es, kw_current_page()) == 1 && key_count(
        es,
        kw_total_pages(),
    ) == 1 && key_count(es, kw_percentage()) == 1 && key_count(es, kw_message()) == 1
        && key_count(es, kw_partial_items()) <= 1 && key_count(es, kw_partial_text()) <= 1
        && is_str_tok(st) && is_int_tok(cp) && is_int_tok(tp) && is_int_tok(pc) && is_str_tok(ms)
        && (pt matches Some(t) ==> t.kind is Str) {
        Some(
            ProgressUpdateS {
                status: opt_tok_str(st),
                current_page: opt_tok_int(cp),
                total_pages: opt_tok_int(tp),
                percentage: opt_tok_int(pc),
                message: opt_tok_str(ms),
                partial_items: match pi {
                    Some(t) => Some(t.raw),
                    None => None,
                },
                partial_text: match pt {
                    Some(t) => Some(tok_str(t)),
                    None => None,
                },
            },
        )
    } else {
        None::<ProgressUpdateS>
    }
}

/// The terminal shape: `status` must occur exactly once as a string;
/// `message` and `error` may occur at most once as strings;
/// `extractedData`, `metrics` and `metadata` may occur at most once with
/// any value; other members are ignored.
pub open spec fn spec_terminal_of(es: Seq<EntryS>) -> Option<PythonResponseS> {
    let st = find_key(es, kw_status());
    let xd = find_key(es, kw_extracted_data());
    let mc = find_key(es, kw_metrics());
    let md = find_key(es, kw_metadata());
    let ms = find_key(es, kw_message());
    let er = find_key(es, kw_error());
    if key_count(es, kw_status()) == 1 && key_count(es, kw_extracted_data()) <= 1 && key_count(
        es,
        kw_metrics(),
    ) <= 1 && key_count(es, kw_metadata()) <= 1 && key_count(es, kw_message()) <= 1 && key_count(
        es,
        kw_error(),
    ) <= 1 && is_str_tok(st) && (ms matches Some(t) ==> t.kind is Str) && (er matches Some(t)
        ==> t.kind is Str) {
        Some(
            PythonResponseS {
                status: opt_tok_str(st),
                extracted_data: match xd {
                    Some(t) => Some(t.raw),
                    None => None,
                },
                metrics: match mc {
                    Some(t) => Some(t.raw),
                    None => None,
                },
                metadata: match md {
                    Some(t) => Some(t.raw),
                    None => None,
                },
                message: match ms {
                    Some(t) => Some(tok_str(t)),
                    None => None,
                },
                error: match er {
                    Some(t) => Some(tok_str(t)),
                    None => None,
                },
            },
        )
    } else {
        None::<PythonResponseS>
    }
}

/// What one output line means to the bridge.
#[derive(Debug, Clone, PartialEq, Eq)]
pub enum LineClass {
    Noise,
    Progress(ProgressUpdate),
    Terminal(PythonResponse),
}

pub enum LineClassS {
    Noise,
    Progress(ProgressUpdateS),
    Terminal(PythonResponseS),
}

impl View for LineClass {
    type V = LineClassS;

    open spec fn view(&self) -> LineClassS {
        match self {
            LineClass::Noise => LineClassS::Noise,
            LineClass::Progress(p) => LineClassS::Progress(p@),
            LineClass::Terminal(t) => LineClassS::Terminal(t@),
        }
    }
}

/// Classification of one line, in reading order of the rules: a line
/// that is not a JSON object is noise; with `progress_mode`, a line of
/// the progress shape whose `status` is `"progress"` is a progress
/// update; otherwise a line of the terminal shape is a terminal
/// response; everything else is noise.
pub open spec fn spec_classify(s: Seq<u8>, progress_mode: bool) -> LineClassS {
    match spec_top_entries(s) {
        None => LineClassS::Noise,
        Some(es) => {
            let p = spec_progress_of(es);
            if progress_mode && p is Some && p->Some_0.status == kw_progress() {
                LineClassS::Progress(p->Some_0)
            } else {
                match spec_terminal_of(es) {
                    Some(t) => LineClassS::Terminal(t),
                    None => LineClassS::Noise,
                }
            }
        },
    }
}

fn opt_raw_of(es: &Vec<Entry>, count: usize, idx: usize) -> (r: Option<Vec<u8>>)
    requires
        count >= 1 ==> idx < es@.len(),
    ensures
        count >= 1 ==> (r matches Some(b) && b@ == es@[idx as int]@.val.raw),
        count == 0 ==> r is None,
{
    if count >= 1 {
        Some(clone_bytes(&es[idx].val.raw))
    } else {
        None
    }
}

/// Classifies one line of worker output.
pub fn classify_line(line: &Vec<u8>, progress_mode: bool) -> (r: LineClass)
    ensures
        r@ == spec_classify(line@, progress_mode),
{
    let es = match top_entries(line) {
        None => {
            return LineClass::Noise;
        },
        Some(es) => es,
    };
    if progress_mode {
        match progress_of(&es) {
            Some(p) => {
                if crate::bytes::bytes_eq(&p.status, &kw_progress_bytes()) {
                    return LineClass::Progress(p);
                } else {
                    match terminal_of(&es) {
                        Some(t) => {
                            return LineClass::Terminal(t);
                        },
                        None => {
                            return LineClass::Noise;
                        },
                    }
                }
            },
            None => {
                match terminal_of(&es) {
                    Some(t) => {
                        return LineClass::Terminal(t);
                    },
                    None => {
                        return LineClass::Noise;
                    },
                }
            },
        }
    } else {
        match terminal_of(&es) {
            Some(t) => LineClass::Terminal(t),
            None => LineClass::Noise,
        }
    }
}

/// Extracts the progress shape from the members, exactly when the
/// specification recognises it.
pub fn progress_of(es: &Vec<Entry>) -> (r: Option<ProgressUpdate>)
    ensures
        match r {
            Some(p) => spec_progress_of(view_entries(es@)) == Some(p@),
            None => spec_progress_of(view_entries(es@)) is None,
        },
{
    let (st_n, st_i) = lookup(es, &kw_status_bytes());
    let (cp_n, cp_i) = lookup(es, &kw_current_page_bytes());
    let (tp_n, tp_i) = lookup(es, &kw_total_pages_bytes());
    let (pc_n, pc_i) = lookup(es, &kw_percentage_bytes());
    let (ms_n, ms_i) = lookup(es, &kw_message_bytes());
    let (pi_n, pi_i) = lookup(es, &kw_partial_items_bytes());
    let (pt_n, pt_i) = lookup(es, &kw_partial_text_bytes());
    if !(st_n == 1 && cp_n == 1 && tp_n == 1 && pc_n == 1 && ms_n == 1 && pi_n <= 1 && pt_n
        <= 1) {
        return None;
    }
    let status = match &es[st_i].val.kind {
        TokKind::Str(c) => clone_bytes(c),
        _ => {
            return None;
        },
    };
    let current_page = match &es[cp_i].val.kind {
        TokKind::Int(x) => *x,
        _ => {
            return None;
        },
    };
    let total_pages = match &es[tp_i].val.kind {
        TokKind::Int(x) => *x,
        _ => {
            return None;
        },
    };
    let percentage = match &es[pc_i].val.kind {
        TokKind::Int(x) => *x,
        _ => {
            return None;
        },
    };
    let message = match &es[ms_i].val.kind {
        TokKind::Str(c) => clone_bytes(c),
        _ => {
            return None;
        },
    };
    let partial_items = opt_raw_of(es, pi_n, pi_i);
    let partial_text = if pt_n >= 1 {
        match &es[pt_i].val.kind {
            TokKind::Str(c) => Some(clone_bytes(c)),
            _ => {
                return None;
            },
        }
    } else {
        None
    };
    Some(
        ProgressUpdate {
            status,
            current_page,
            total_pages,
            percentage,
            message,
            partial_items,
            partial_text,
        },
    )
}

/// Extracts the terminal shape from the members, exactly when the
/// specification recognises it.
pub fn terminal_of(es: &Vec<Entry>) -> (r: Option<PythonResponse>)
    ensures
        match r {
            Some(t) => spec_terminal_of(view_entries(es@)) == Some(t@),
            None => spec_terminal_of(view_entries(es@)) is None,
        },
{
    let (st_n, st_i) = lookup(es, &kw_status_bytes());
    let (xd_n, xd_i) = lookup(es, &kw_extracted_data_bytes());
    let (mc_n, mc_i) = lookup(es, &kw_metrics_bytes());
    let (md_n, md_i) = lookup(es, &kw_metadata_bytes());
    let (ms_n, ms_i) = lookup(es, &kw_message_bytes());
    let (er_n, er_i) = lookup(es, &kw_error_bytes());
    if !(st_n == 1 && xd_n <= 1 && mc_n <= 1 && md_n <= 1 && ms_n <= 1 && er_n <= 1) {
        return None;
    }
    let status = match &es[st_i].val.kind {
        TokKind::Str(c) => clone_bytes(c),
        _ => {
            return None;
        },
    };
    let extracted_data = opt_raw_of(es, xd_n, xd_i);
    let metrics = opt_raw_of(es, mc_n, mc_i);
    let metadata = opt_raw_of(es, md_n, md_i);
    let message = if ms_n >= 1 {
        match &es[ms_i].val.kind {
            TokKind::Str(c) => Some(clone_bytes(c)),
            _ => {
                return None;
            },
        }
    } else {
        None
    };
    let error = if er_n >= 1 {
        match &es[er_i].val.kind {
            TokKind::Str(c) => Some(clone_bytes(c)),
            _ => {
                return None;
            },
        }
    } else {
        None
    };
    Some(PythonResponse { status, extracted_data, metrics, metadata, message, error })
}

/// What one line of a streamed chat response means: the text delta it
/// carries, if any, and whether the stream is done.  Lines that are not
/// JSON objects carry nothing.
#[derive(Debug, Clone, PartialEq, Eq)]
pub struct ChatEvent {
    pub content: Option<Vec<u8>>,
    pub done: bool,
}

pub struct ChatEventS {
    pub content: Option<Seq<u8>>,
    pub done: bool,
}

impl View for ChatEvent {
    type V = ChatEventS;

    open spec fn view(&self) -> ChatEventS {
        ChatEventS {
            content: match self.content {
                Some(ref b) => Some(b@),
                None => None,
            },
            done: self.done,
        }
    }
}

/// The chat line shape: `done` is the last `done` member when it is a
/// boolean, else false; the content is the last `content` string inside
/// the object of the last `message` member.  Later members shadow
/// earlier ones here, as a tree decoding of the object would see them.
pub open spec fn spec_chat_of(s: Seq<u8>) -> Option<ChatEventS> {
    match spec_top_entries(s) {
        None => None::<ChatEventS>,
        Some(es) => Some(
            ChatEventS {
                done: match find_key_last(es, kw_done()) {
                    Some(t) => match t.kind {
                        TokKindS::Bool(b) => b,
                        _ => false,
                    },
                    None => false,
                },
                content: match find_key_last(es, kw_message()) {
                    Some(t) => match spec_top_entries(t.raw) {
                        Some(mes) => match find_key_last(mes, kw_content()) {
                            Some(ct) => match ct.kind {
                                TokKindS::Str(c) => Some(c),
                                _ => None::<Seq<u8>>,
                            },
                            None => None::<Seq<u8>>,
                        },
                        None => None::<Seq<u8>>,
                    },
                    None => None::<Seq<u8>>,
                },
            },
        ),
    }
}

/// Classifies one line of a streamed chat response.
pub fn classify_chat_line(line: &Vec<u8>) -> (r: Option<ChatEvent>)
    ensures
        match r {
            Some(ev) => spec_chat_of(line@) == Some(ev@),
            None => spec_chat_of(line@) is None,
        },
{
    let es = match top_entries(line) {
        None => {
            return None;
        },
        Some(es) => es,
    };
    let done = match lookup_last(&es, &kw_done_bytes()) {
        Some(j) => match &es[j].val.kind {
            TokKind::Bool(b) => *b,
            _ => false,
        },
        None => false,
    };
    let content = match lookup_last(&es, &kw_message_bytes()) {
        Some(j) => {
            let raw = clone_bytes(&es[j].val.raw);
            match top_entries(&raw) {
                Some(mes) => match lookup_last(&mes, &kw_content_bytes()) {
                    Some(cj) => match &mes[cj].val.kind {
                        TokKind::Str(c) => Some(clone_bytes(c)),
                        _ => None,
                    },
                    None => None,
                },
                None => None,
            }
        },
        None => None,
    };
    Some(ChatEvent { content, done })
}

} // verus!
