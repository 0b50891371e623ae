//! The local-inference-server side: the base URL a call connects to,
//! and the request shapes the thin REST client sends.

use vstd::prelude::*;
use crate::bytes::{is_ws, ws_byte};
use crate::json::spec_skip_ws;
use crate::script::dec_digits;

verus! {

/// "localhost"
pub open spec fn kw_localhost() -> Seq<u8> {
    seq![108u8, 111u8, 99u8, 97u8, 108u8, 104u8, 111u8, 115u8, 116u8]
}

/// "http://"
pub open spec fn url_scheme() -> Seq<u8> {
    seq![104u8, 116u8, 116u8, 112u8, 58u8, 47u8, 47u8]
}

/// "127.0.0.1"
pub open spec fn loopback_host() -> Seq<u8> {
    seq![49u8, 50u8, 55u8, 46u8, 48u8, 46u8, 48u8, 46u8, 49u8]
}

/// The index before which everything from `i` down is whitespace.
pub open spec fn spec_trim_end_idx(s: Seq<u8>, i: int) -> int
    decreases i when 0 <= i <= s.len()
{
    if i <= 0 {
        0
    } else if is_ws(s[i - 1]) {
        spec_trim_end_idx(s, i - 1)
    } else {
        i
    }
}

/// `s` with leading and trailing whitespace removed.
pub open spec fn spec_trim(s: Seq<u8>) -> Seq<u8> {
    let a = spec_skip_ws(s, 0);
    let b = spec_trim_end_idx(s, s.len() as int);
    if a <= b {
        s.subrange(a, b)
    } else {
        Seq::<u8>::empty()
    }
}

pub open spec fn to_lower(c: u8) -> u8 {
    if 65 <= c <= 90 {
        (c + 32) as u8
    } else {
        c
    }
}

pub open spec fn spec_lower(s: Seq<u8>) -> Seq<u8> {
    Seq::new(s.len(), |i: int| to_lower(s[i]))
}

/// The base URL of the inference server: `http://host:port`, where the
/// configured host is trimmed, and an empty host or any spelling of
/// `localhost` is pinned to the IPv4 loopback address so that the
/// connection cannot drift to IPv6.
pub open spec fn spec_base_url(host: Seq<u8>, port: u16) -> Seq<u8> {
    let h = spec_trim(host);
    let pinned = if h.len() == 0 || spec_lower(h) == kw_localhost() {
        loopback_host()
    } else {
        h
    };
    url_scheme() + pinned + seq![58u8] + dec_digits(port as nat)
}

/// Whether `host[a..b]`, lowered, spells `localhost`.
fn is_localhost(host: &Vec<u8>, a: usize, b: usize) -> (r: bool)
    requires
        a < b <= host@.len(),
    ensures
        r == (spec_lower(host@.subrange(a as int, b as int)) == kw_localhost()),
{
    let ghost h = host@.subrange(a as int, b as int);
    assert(spec_lower(h).len() == b - a);
    if b - a != 9 {
        assert(spec_lower(h) != kw_localhost()) by {
            assert(kw_localhost().len() == 9);
        }
        return false;
    }
    let kw: Vec<u8> = vec![108, 111, 99, 97, 108, 104, 111, 115, 116];
    assert(kw@ =~= kw_localhost());
    let mut i: usize = 0;
    while i < 9
        invariant
            i <= 9,
            a < b <= host@.len(),
            b - a == 9,
            kw@ == kw_localhost(),
            h == host@.subrange(a as int, b as int),
            forall|k: int| 0 <= k < i ==> to_lower(#[trigger] h[k]) == kw_localhost()[k],
        decreases 9 - i,
    {
        let c = host[a + i];
        let lc = if 65 <= c && c <= 90 {
            c + 32
        } else {
            c
        };
        assert(h[i as int] == host@[a + i]);
        if lc != kw[i] {
            assert(spec_lower(h)[i as int] != kw_localhost()[i as int]);
            return false;
        }
        i = i + 1;
    }
    assert(spec_lower(h) =~= kw_localhost());
    true
}

/// Renders the base URL from the configured host and port.
pub fn base_url(host: &Vec<u8>, port: u16) -> (out: Vec<u8>)
    ensures
        out@ == spec_base_url(host@, port),
{
    let a = crate::json::skip_ws(host, 0);
    let mut b: usize = host.len();
    while b > 0 && ws_byte(host[b - 1])
        invariant
            b <= host@.len(),
            spec_trim_end_idx(host@, host@.len() as int) == spec_trim_end_idx(host@, b as int),
        decreases b,
    {
        assert(spec_trim_end_idx(host@, b as int) == spec_trim_end_idx(host@, b - 1));
        b = b - 1;
    }
    assert(spec_trim_end_idx(host@, b as int) == b);
    let ghost h = spec_trim(host@);
    let mut out: Vec<u8> = vec![104, 116, 116, 112, 58, 47, 47];
    assert(out@ =~= url_scheme());
    if a >= b {
        assert(h =~= Seq::<u8>::empty());
        let ip: Vec<u8> = vec![49, 50, 55, 46, 48, 46, 48, 46, 49];
        assert(ip@ =~= loopback_host());
        crate::request::push_all(&mut out, &ip);
    } else {
        assert(h == host@.subrange(a as int, b as int));
        if is_localhost(host, a, b) {
            let ip: Vec<u8> = vec![49, 50, 55, 46, 48, 46, 48, 46, 49];
            assert(ip@ =~= loopback_host());
            crate::request::push_all(&mut out, &ip);
        } else {
            assert(h.len() != 0);
            let part = vstd::slice::slice_to_vec(
                vstd::slice::slice_subrange(host.as_slice(), a, b),
            );
            crate::request::push_all(&mut out, &part);
        }
    }
    out.push(58);
    let digits = crate::script::u64_to_dec(port as u64);
    crate::request::push_all(&mut out, &digits);
    assert(out@ =~= spec_base_url(host@, port));
    out
}

/// What the server reports of one currently loaded model: its name, the
/// video memory it holds, and when it will be unloaded (raw JSON text).
#[derive(Debug, Clone, PartialEq, Eq)]
pub struct LoadedModel {
    pub name: Vec<u8>,
    pub vram_bytes: Option<u64>,
    pub expires_at: Option<Vec<u8>>,
}

pub struct LoadedModelS {
    pub name: Seq<u8>,
    pub vram_bytes: Option<u64>,
    pub expires_at: Option<Seq<u8>>,
}

impl View for LoadedModel {
    type V = LoadedModelS;

    open spec fn view(&self) -> LoadedModelS {
        LoadedModelS {
            name: self.name@,
            vram_bytes: self.vram_bytes,
            expires_at: match self.expires_at {
                Some(ref b) => Some(b@),
                None => None,
            },
        }
    }
}

pub open spec fn view_loaded(ms: Seq<LoadedModel>) -> Seq<LoadedModelS> {
    Seq::new(ms.len(), |k: int| ms[k]@)
}

/// The load report under a model's name; with one name reported twice,
/// the later report stands, as a keyed collection of the reports would
/// have it.
pub open spec fn spec_find_loaded(ms: Seq<LoadedModelS>, name: Seq<u8>) -> Option<LoadedModelS>
    decreases ms.len(),
{
    if ms.len() == 0 {
        None::<LoadedModelS>
    } else if ms.last().name == name {
        Some(ms.last())
    } else {
        spec_find_loaded(ms.drop_last(), name)
    }
}

/// Finds the load report for `name`: a model is loaded exactly when one
/// exists.
pub fn find_loaded(ms: &Vec<LoadedModel>, name: &Vec<u8>) -> (r: Option<usize>)
    ensures
        match r {
            Some(j) => j < ms@.len() && ms@[j as int]@.name == name@ && spec_find_loaded(
                view_loaded(ms@),
                name@,
            ) == Some(ms@[j as int]@),
            None => spec_find_loaded(view_loaded(ms@), name@) is None,
        },
{
    let ghost full = view_loaded(ms@);
    let mut found: Option<usize> = None;
    let mut i: usize = 0;
    while i < ms.len()
        invariant
            i <= ms.len(),
            full == view_loaded(ms@),
            match found {
                Some(j) => j < i && full[j as int].name == name@ && spec_find_loaded(
                    full.take(i as int),
                    name@,
                ) == Some(full[j as int]),
                None => spec_find_loaded(full.take(i as int), name@) is None,
            },
        decreases ms.len() - i,
    {
        proof {
            assert(full.take(i + 1).drop_last() =~= full.take(i as int));
            assert(full.take(i + 1).last() == full[i as int]);
        }
        if crate::bytes::bytes_eq(&ms[i].name, name) {
            found = Some(i);
        }
        i = i + 1;
    }
    proof {
        assert(full.take(ms@.len() as int) =~= full);
    }
    found
}

/// " MB"
pub open spec fn mb_suffix() -> Seq<u8> {
    seq![32u8, 77u8, 66u8]
}

/// The human-readable label of a video-memory amount, in whole
/// megabytes: the byte count divided down, with the unit appended.
pub open spec fn spec_vram_label(bytes: u64) -> Seq<u8> {
    dec_digits((bytes / 1048576) as nat) + mb_suffix()
}

pub fn vram_label(bytes: u64) -> (out: Vec<u8>)
    ensures
        out@ == spec_vram_label(bytes),
{
    let mut out = crate::script::u64_to_dec(bytes / 1048576);
    out.push(32);
    out.push(77);
    out.push(66);
    assert(out@ =~= spec_vram_label(bytes));
    out
}

/// One message of a chat conversation.
#[derive(Debug, Clone, PartialEq, Eq)]
pub struct ChatMessage {
    pub role: String,
    pub content: String,
    pub images: Option<Vec<String>>,
}

/// A request to pull a model.
#[derive(Debug, Clone, PartialEq, Eq)]
pub struct PullRequest {
    pub model: String,
    pub insecure: bool,
}

/// The connection to the inference server.  Connections are made per
/// call over HTTP, so there is nothing to hold open here; the type
/// exists so that the application can manage one bridge value.
pub struct OllamaBridge {}

impl OllamaBridge {
    pub fn new() -> (b: OllamaBridge) {
        OllamaBridge {}
    }

    /// Readies the bridge.  A direct connection needs no setup, so this
    /// always succeeds.
    pub fn start(&self) -> (r: Result<(), crate::bridge::BridgeError>)
        ensures
            r is Ok,
    {
        Ok(())
    }
}

} // verus!
