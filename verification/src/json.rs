//! The wire grammar: a byte-level scanner for one line holding a JSON
//! object, exposing the object's top-level members.
//!
//! The scanner defines what this crate accepts as a message line.  String
//! values are handed out as the raw bytes between their quotes, with escape
//! sequences kept as written; nested values are handed out as their raw
//! text, so that an unverified boundary can decode them further if it needs
//! to.

use vstd::prelude::*;
use crate::bytes::{is_ws, ws_byte};

verus! {

pub const QUOTE: u8 = 34;
pub const BACKSLASH: u8 = 92;
pub const LBRACE: u8 = 123;
pub const RBRACE: u8 = 125;
pub const LBRACKET: u8 = 91;
pub const RBRACKET: u8 = 93;
pub const COLON: u8 = 58;
pub const COMMA: u8 = 44;
pub const MINUS: u8 = 45;
pub const PLUS: u8 = 43;
pub const DOT: u8 = 46;
pub const DIGIT0: u8 = 48;
pub const DIGIT9: u8 = 57;
pub const UPPER_E: u8 = 69;
pub const LOWER_E: u8 = 101;
pub const LOWER_T: u8 = 116;
pub const LOWER_R: u8 = 114;
pub const LOWER_U: u8 = 117;
pub const LOWER_F: u8 = 102;
pub const LOWER_A: u8 = 97;
pub const LOWER_L: u8 = 108;
pub const LOWER_S: u8 = 115;
pub const LOWER_N: u8 = 110;

/// The first index at or after `i` whose byte is not whitespace.
pub open spec fn spec_skip_ws(s: Seq<u8>, i: int) -> int
    decreases s.len() - i when 0 <= i <= s.len()
{
    if i < 0 || i >= s.len() {
        i
    } else if is_ws(s[i]) {
        spec_skip_ws(s, i + 1)
    } else {
        i
    }
}

pub fn skip_ws(v: &Vec<u8>, i: usize) -> (r: usize)
    requires
        i <= v@.len(),
    ensures
        r == spec_skip_ws(v@, i as int),
        i <= r <= v@.len(),
        r < v@.len() ==> !is_ws(v@[r as int]),
{
    let mut j: usize = i;
    while j < v.len() && ws_byte(v[j])
        invariant
            i <= j <= v@.len(),
            spec_skip_ws(v@, i as int) == spec_skip_ws(v@, j as int),
        decreases v@.len() - j,
    {
        assert(spec_skip_ws(v@, j as int) == spec_skip_ws(v@, j + 1));
        j = j + 1;
    }
    assert(spec_skip_ws(v@, j as int) == j);
    j
}

/// The index just past the closing quote of a string body that starts at
/// `i` (the position right after the opening quote).  A backslash escapes
/// the byte that follows it.  `None` when the line ends before the string
/// closes.
pub open spec fn spec_str_body_end(s: Seq<u8>, i: int) -> Option<int>
    decreases s.len() - i when 0 <= i <= s.len()
{
    if i < 0 || i >= s.len() {
        None::<int>
    } else if s[i] == QUOTE {
        Some(i + 1)
    } else if s[i] == BACKSLASH {
        if i + 1 < s.len() {
            spec_str_body_end(s, i + 2)
        } else {
            None::<int>
        }
    } else {
        spec_str_body_end(s, i + 1)
    }
}

/// Relates an executable scan result to a specification-level one.
pub open spec fn opt_end_matches(r: Option<usize>, m: Option<int>) -> bool {
    match r {
        Some(j) => m == Some(j as int),
        None => m is None,
    }
}

pub fn str_body_end(v: &Vec<u8>, i: usize) -> (r: Option<usize>)
    requires
        i <= v@.len(),
    ensures
        opt_end_matches(r, spec_str_body_end(v@, i as int)),
        r matches Some(j) ==> i < j <= v@.len(),
{
    let mut j: usize = i;
    loop
        invariant
            i <= j <= v@.len(),
            spec_str_body_end(v@, i as int) == spec_str_body_end(v@, j as int),
        decreases v@.len() - j,
    {
        if j >= v.len() {
            return None;
        }
        if v[j] == QUOTE {
            return Some(j + 1);
        }
        if v[j] == BACKSLASH {
            if j + 1 < v.len() {
                assert(spec_str_body_end(v@, j as int) == spec_str_body_end(v@, j + 2));
                j = j + 2;
            } else {
                return None;
            }
        } else {
            assert(spec_str_body_end(v@, j as int) == spec_str_body_end(v@, j + 1));
            j = j + 1;
        }
    }
}

/// A byte that can occur inside a JSON number token.
pub open spec fn is_num_byte(c: u8) -> bool {
    (DIGIT0 <= c <= DIGIT9) || c == MINUS || c == PLUS || c == DOT || c == LOWER_E || c
        == UPPER_E
}

pub fn num_byte(c: u8) -> (r: bool)
    ensures
        r == is_num_byte(c),
{
    (DIGIT0 <= c && c <= DIGIT9) || c == MINUS || c == PLUS || c == DOT || c == LOWER_E || c
        == UPPER_E
}

/// The first index at or after `i` whose byte cannot occur in a number
/// token.
pub open spec fn spec_num_end(s: Seq<u8>, i: int) -> int
    decreases s.len() - i when 0 <= i <= s.len()
{
    if i < 0 || i >= s.len() {
        i
    } else if is_num_byte(s[i]) {
        spec_num_end(s, i + 1)
    } else {
        i
    }
}

pub fn num_end(v: &Vec<u8>, i: usize) -> (r: usize)
    requires
        i <= v@.len(),
    ensures
        r == spec_num_end(v@, i as int),
        i <= r <= v@.len(),
{
    let mut j: usize = i;
    while j < v.len() && num_byte(v[j])
        invariant
            i <= j <= v@.len(),
            spec_num_end(v@, i as int) == spec_num_end(v@, j as int),
        decreases v@.len() - j,
    {
        assert(spec_num_end(v@, j as int) == spec_num_end(v@, j + 1));
        j = j + 1;
    }
    assert(spec_num_end(v@, j as int) == j);
    j
}

/// The index just past one of the literals `true`, `false` or `null`
/// starting at `i`, or `None` when none of them starts there.
pub open spec fn spec_lit_end(s: Seq<u8>, i: int) -> Option<int> {
    if 0 <= i && i + 4 <= s.len() && s[i] == LOWER_T && s[i + 1] == LOWER_R && s[i + 2]
        == LOWER_U && s[i + 3] == LOWER_E {
        Some(i + 4)
    } else if 0 <= i && i + 5 <= s.len() && s[i] == LOWER_F && s[i + 1] == LOWER_A && s[i + 2]
        == LOWER_L && s[i + 3] == LOWER_S && s[i + 4] == LOWER_E {
        Some(i + 5)
    } else if 0 <= i && i + 4 <= s.len() && s[i] == LOWER_N && s[i + 1] == LOWER_U && s[i + 2]
        == LOWER_L && s[i + 3] == LOWER_L {
        Some(i + 4)
    } else {
        None::<int>
    }
}

pub fn lit_end(v: &Vec<u8>, i: usize) -> (r: Option<usize>)
    requires
        i <= v@.len(),
    ensures
        opt_end_matches(r, spec_lit_end(v@, i as int)),
        r matches Some(j) ==> i < j <= v@.len(),
{
    if v.len() - i >= 4 && v[i] == LOWER_T && v[i + 1] == LOWER_R && v[i + 2] == LOWER_U && v[i
        + 3] == LOWER_E {
        Some(i + 4)
    } else if v.len() - i >= 5 && v[i] == LOWER_F && v[i + 1] == LOWER_A && v[i + 2] == LOWER_L
        && v[i + 3] == LOWER_S && v[i + 4] == LOWER_E {
        Some(i + 5)
    } else if v.len() - i >= 4 && v[i] == LOWER_N && v[i + 1] == LOWER_U && v[i + 2] == LOWER_L
        && v[i + 3] == LOWER_L {
        Some(i + 4)
    } else {
        None
    }
}

/// The index just past one JSON value starting exactly at `i` (no leading
/// whitespace).  `d` is recursion fuel; every recursive call consumes one
/// unit, so any value whose scan needs more than `d` calls is rejected.
pub open spec fn spec_value_end(s: Seq<u8>, i: int, d: nat) -> Option<int>
    decreases d,
{
    if i < 0 || i >= s.len() || d == 0 {
        None::<int>
    } else if s[i] == QUOTE {
        spec_str_body_end(s, i + 1)
    } else if s[i] == LBRACE {
        spec_object_end(s, i, (d - 1) as nat)
    } else if s[i] == LBRACKET {
        spec_array_end(s, i, (d - 1) as nat)
    } else if s[i] == LOWER_T || s[i] == LOWER_F || s[i] == LOWER_N {
        spec_lit_end(s, i)
    } else if (DIGIT0 <= s[i] <= DIGIT9) || s[i] == MINUS {
        Some(spec_num_end(s, i))
    } else {
        None::<int>
    }
}

/// The index just past an object that opens at `i`.
pub open spec fn spec_object_end(s: Seq<u8>, i: int, d: nat) -> Option<int>
    decreases d,
{
    if i < 0 || i >= s.len() || s[i] != LBRACE || d == 0 {
        None::<int>
    } else {
        let j = spec_skip_ws(s, i + 1);
        if j < s.len() && s[j] == RBRACE {
            Some(j + 1)
        } else {
            spec_members_end(s, j, (d - 1) as nat)
        }
    }
}

/// The index just past the object's closing brace, starting from the
/// opening quote of a member key at `i`.
pub open spec fn spec_members_end(s: Seq<u8>, i: int, d: nat) -> Option<int>
    decreases d,
{
    if i < 0 || i >= s.len() || s[i] != QUOTE || d == 0 {
        None::<int>
    } else {
        match spec_str_body_end(s, i + 1) {
            None => None::<int>,
            Some(k) => {
                let c = spec_skip_ws(s, k);
                if c >= s.len() || s[c] != COLON {
                    None::<int>
                } else {
                    let p = spec_skip_ws(s, c + 1);
                    match spec_value_end(s, p, (d - 1) as nat) {
                        None => None::<int>,
                        Some(e) => {
                            let q = spec_skip_ws(s, e);
                            if q < s.len() && s[q] == COMMA {
                                spec_members_end(s, spec_skip_ws(s, q + 1), (d - 1) as nat)
                            } else if q < s.len() && s[q] == RBRACE {
                                Some(q + 1)
                            } else {
                                None::<int>
                            }
                        },
                    }
                }
            },
        }
    }
}

/// The index just past an array that opens at `i`.
pub open spec fn spec_array_end(s: Seq<u8>, i: int, d: nat) -> Option<int>
    decreases d,
{
    if i < 0 || i >= s.len() || s[i] != LBRACKET || d == 0 {
        None::<int>
    } else {
        let j = spec_skip_ws(s, i + 1);
        if j < s.len() && s[j] == RBRACKET {
            Some(j + 1)
        } else {
            spec_elements_end(s, j, (d - 1) as nat)
        }
    }
}

/// The index just past the array's closing bracket, starting from the
/// first byte of an element at `i`.
pub open spec fn spec_elements_end(s: Seq<u8>, i: int, d: nat) -> Option<int>
    decreases d,
{
    if d == 0 {
        None::<int>
    } else {
        match spec_value_end(s, i, (d - 1) as nat) {
            None => None::<int>,
            Some(e) => {
                let q = spec_skip_ws(s, e);
                if q < s.len() && s[q] == COMMA {
                    spec_elements_end(s, spec_skip_ws(s, q + 1), (d - 1) as nat)
                } else if q < s.len() && s[q] == RBRACKET {
                    Some(q + 1)
                } else {
                    None::<int>
                }
            },
        }
    }
}

pub fn value_end(v: &Vec<u8>, i: usize, d: usize) -> (r: Option<usize>)
    requires
        i <= v@.len(),
    ensures
        opt_end_matches(r, spec_value_end(v@, i as int, d as nat)),
        r matches Some(j) ==> i < j <= v@.len(),
    decreases d,
{
    if i >= v.len() || d == 0 {
        return None;
    }
    let c = v[i];
    if c == QUOTE {
        str_body_end(v, i + 1)
    } else if c == LBRACE {
        object_end(v, i, d - 1)
    } else if c == LBRACKET {
        array_end(v, i, d - 1)
    } else if c == LOWER_T || c == LOWER_F || c == LOWER_N {
        lit_end(v, i)
    } else if (DIGIT0 <= c && c <= DIGIT9) || c == MINUS {
        let e = num_end(v, i);
        proof {
            lemma_num_end_bounds(v@, i + 1);
            assert(spec_num_end(v@, i as int) == spec_num_end(v@, i + 1));
        }
        Some(e)
    } else {
        None
    }
}

proof fn lemma_num_end_bounds(s: Seq<u8>, i: int)
    requires
        0 <= i <= s.len(),
    ensures
        i <= spec_num_end(s, i) <= s.len(),
    decreases s.len() - i,
{
    if i < s.len() && is_num_byte(s[i]) {
        lemma_num_end_bounds(s, i + 1);
    }
}

pub fn object_end(v: &Vec<u8>, i: usize, d: usize) -> (r: Option<usize>)
    requires
        i <= v@.len(),
    ensures
        opt_end_matches(r, spec_object_end(v@, i as int, d as nat)),
        r matches Some(j) ==> i < j <= v@.len(),
    decreases d,
{
    if i >= v.len() || v[i] != LBRACE || d == 0 {
        return None;
    }
    let j = skip_ws(v, i + 1);
    if j < v.len() && v[j] == RBRACE {
        Some(j + 1)
    } else {
        members_end(v, j, d - 1)
    }
}

pub fn members_end(v: &Vec<u8>, i: usize, d: usize) -> (r: Option<usize>)
    requires
        i <= v@.len(),
    ensures
        opt_end_matches(r, spec_members_end(v@, i as int, d as nat)),
        r matches Some(j) ==> i < j <= v@.len(),
    decreases d,
{
    if i >= v.len() || v[i] != QUOTE || d == 0 {
        return None;
    }
    match str_body_end(v, i + 1) {
        None => None,
        Some(k) => {
            let c = skip_ws(v, k);
            if c >= v.len() || v[c] != COLON {
                None
            } else {
                let p = skip_ws(v, c + 1);
                match value_end(v, p, d - 1) {
                    None => None,
                    Some(e) => {
                        let q = skip_ws(v, e);
                        if q < v.len() && v[q] == COMMA {
                            let n = skip_ws(v, q + 1);
                            members_end(v, n, d - 1)
                        } else if q < v.len() && v[q] == RBRACE {
                            Some(q + 1)
                        } else {
                            None
                        }
                    },
                }
            }
        },
    }
}

pub fn array_end(v: &Vec<u8>, i: usize, d: usize) -> (r: Option<usize>)
    requires
        i <= v@.len(),
    ensures
        opt_end_matches(r, spec_array_end(v@, i as int, d as nat)),
        r matches Some(j) ==> i < j <= v@.len(),
    decreases d,
{
    if i >= v.len() || v[i] != LBRACKET || d == 0 {
        return None;
    }
    let j = skip_ws(v, i + 1);
    if j < v.len() && v[j] == RBRACKET {
        Some(j + 1)
    } else {
        elements_end(v, j, d - 1)
    }
}

pub fn elements_end(v: &Vec<u8>, i: usize, d: usize) -> (r: Option<usize>)
    requires
        i <= v@.len(),
    ensures
        opt_end_matches(r, spec_elements_end(v@, i as int, d as nat)),
        r matches Some(j) ==> i < j <= v@.len(),
    decreases d,
{
    if d == 0 {
        return None;
    }
    match value_end(v, i, d - 1) {
        None => None,
        Some(e) => {
            let q = skip_ws(v, e);
            if q < v.len() && v[q] == COMMA {
                let n = skip_ws(v, q + 1);
                elements_end(v, n, d - 1)
            } else if q < v.len() && v[q] == RBRACKET {
                Some(q + 1)
            } else {
                None
            }
        },
    }
}

pub open spec fn is_digit(c: u8) -> bool {
    DIGIT0 <= c <= DIGIT9
}

pub open spec fn all_digits(s: Seq<u8>) -> bool {
    forall|k: int| 0 <= k < s.len() ==> is_digit(#[trigger] s[k])
}

/// The integer denoted by a sequence of decimal digit bytes.
pub open spec fn digits_val(s: Seq<u8>) -> int
    decreases s.len(),
{
    if s.len() == 0 {
        0
    } else {
        digits_val(s.drop_last()) * 10 + (s.last() - DIGIT0)
    }
}

/// A token consisting of an optional minus sign and one or more digits.
pub open spec fn int_token(t: Seq<u8>) -> bool {
    if t.len() >= 1 && t[0] == MINUS {
        t.len() >= 2 && all_digits(t.skip(1))
    } else {
        t.len() >= 1 && all_digits(t)
    }
}

pub open spec fn token_int_val(t: Seq<u8>) -> int {
    if t.len() >= 1 && t[0] == MINUS {
        -digits_val(t.skip(1))
    } else {
        digits_val(t)
    }
}

/// The value of a number token when it is a plain integer within `i32`
/// range; anything else is `None`.
pub open spec fn spec_int_of(t: Seq<u8>) -> Option<i32> {
    if int_token(t) && -0x8000_0000 <= token_int_val(t) <= 0x7fff_ffff {
        Some(token_int_val(t) as i32)
    } else {
        None::<i32>
    }
}

proof fn lemma_digits_nonneg(s: Seq<u8>)
    requires
        all_digits(s),
    ensures
        digits_val(s) >= 0,
    decreases s.len(),
{
    if s.len() > 0 {
        assert(all_digits(s.drop_last())) by {
            assert(forall|k: int|
                0 <= k < s.len() - 1 ==> s.drop_last()[k] == #[trigger] s[k]);
        }
        lemma_digits_nonneg(s.drop_last());
    }
}

proof fn lemma_digits_prefix(s: Seq<u8>, k: int)
    requires
        all_digits(s),
        0 <= k <= s.len(),
    ensures
        digits_val(s.take(k)) <= digits_val(s),
    decreases s.len() - k,
{
    if k == s.len() {
        assert(s.take(k) =~= s);
    } else {
        lemma_digits_prefix(s, k + 1);
        let t = s.take(k + 1);
        assert(t.drop_last() =~= s.take(k));
        assert(all_digits(s.take(k))) by {
            assert(forall|m: int| 0 <= m < k ==> s.take(k)[m] == #[trigger] s[m]);
        }
        lemma_digits_nonneg(s.take(k));
        assert(digits_val(t) == digits_val(s.take(k)) * 10 + (s[k] - DIGIT0));
        assert(digits_val(s.take(k)) <= digits_val(t));
    }
}

/// Parses the span `[a, b)` as a plain integer, exactly when the
/// specification recognises one.
pub fn int_of_span(v: &Vec<u8>, a: usize, b: usize) -> (r: Option<i32>)
    requires
        a <= b <= v@.len(),
    ensures
        r == spec_int_of(v@.subrange(a as int, b as int)),
{
    let ghost t = v@.subrange(a as int, b as int);
    let neg: bool = a < b && v[a] == MINUS;
    let start: usize = if neg {
        a + 1
    } else {
        a
    };
    let ghost dseq = v@.subrange(start as int, b as int);
    proof {
        if neg {
            assert(t.skip(1) =~= dseq);
        } else {
            assert(t =~= dseq);
        }
    }
    if start == b {
        assert(!int_token(t));
        return None;
    }
    let mut acc: u64 = 0;
    let mut j: usize = start;
    while j < b
        invariant
            a <= start <= j <= b <= v@.len(),
            t == v@.subrange(a as int, b as int),
            dseq == v@.subrange(start as int, b as int),
            neg ==> t.len() >= 1 && t[0] == MINUS && start == a + 1 && t.skip(1) == dseq,
            !neg ==> start == a && t == dseq && (t.len() >= 1 ==> t[0] != MINUS),
            all_digits(dseq.take(j - start)),
            acc == digits_val(dseq.take(j - start)),
            acc <= 0x8000_0000,
        decreases b - j,
    {
        let c = v[j];
        if !(DIGIT0 <= c && c <= DIGIT9) {
            assert(!all_digits(dseq)) by {
                assert(dseq[j - start] == c);
            }
            assert(!int_token(t));
            return None;
        }
        let d: u64 = (c - DIGIT0) as u64;
        let ghost pre = dseq.take(j - start);
        acc = acc * 10 + d;
        j = j + 1;
        proof {
            let cur = dseq.take(j - start);
            assert(cur.drop_last() =~= pre);
            assert(cur.last() == c);
            assert(acc == digits_val(cur));
            assert(all_digits(cur));
        }
        if acc > 0x8000_0000 {
            proof {
                if int_token(t) {
                    lemma_digits_prefix(dseq, j - start);
                    lemma_digits_nonneg(dseq);
                    assert(digits_val(dseq) > 0x8000_0000);
                    assert(!(-0x8000_0000 <= token_int_val(t) <= 0x7fff_ffff));
                }
            }
            return None;
        }
    }
    proof {
        assert(dseq.take(j - start) =~= dseq);
        assert(acc == digits_val(dseq));
        assert(int_token(t));
    }
    if neg {
        if acc == 0x8000_0000 {
            assert(token_int_val(t) == -0x8000_0000);
            Some(i32::MIN)
        } else {
            assert(acc <= 0x7fff_ffff);
            Some(-(acc as i32))
        }
    } else {
        if acc > 0x7fff_ffff {
            assert(token_int_val(t) > 0x7fff_ffff);
            None
        } else {
            Some(acc as i32)
        }
    }
}

/// The classified value of a top-level member.  String contents keep
/// their escape sequences as written; values this crate's logic does not
/// look into (objects, arrays, non-integer numbers) are `Other`, with
/// their raw text kept in the token.
pub enum TokKind {
    Str(Vec<u8>),
    Int(i32),
    Bool(bool),
    Null,
    Other,
}

pub enum TokKindS {
    Str(Seq<u8>),
    Int(i32),
    Bool(bool),
    Null,
    Other,
}

impl View for TokKind {
    type V = TokKindS;

    open spec fn view(&self) -> TokKindS {
        match self {
            TokKind::Str(c) => TokKindS::Str(c@),
            TokKind::Int(x) => TokKindS::Int(*x),
            TokKind::Bool(b) => TokKindS::Bool(*b),
            TokKind::Null => TokKindS::Null,
            TokKind::Other => TokKindS::Other,
        }
    }
}

/// One value: its exact text on the wire and its classification.
pub struct Tok {
    pub raw: Vec<u8>,
    pub kind: TokKind,
}

pub struct TokS {
    pub raw: Seq<u8>,
    pub kind: TokKindS,
}

impl View for Tok {
    type V = TokS;

    open spec fn view(&self) -> TokS {
        TokS { raw: self.raw@, kind: self.kind@ }
    }
}

/// One top-level member of the object on a line.
pub struct Entry {
    pub key: Vec<u8>,
    pub val: Tok,
}

pub struct EntryS {
    pub key: Seq<u8>,
    pub val: TokS,
}

impl View for Entry {
    type V = EntryS;

    open spec fn view(&self) -> EntryS {
        EntryS { key: self.key@, val: self.val@ }
    }
}

pub open spec fn view_entries(es: Seq<Entry>) -> Seq<EntryS> {
    Seq::new(es.len(), |k: int| es[k]@)
}

/// The token for the value span `[p, e)`.
pub open spec fn spec_tok_of(s: Seq<u8>, p: int, e: int) -> TokS {
    let kind = if p + 2 <= e && s[p] == QUOTE {
        TokKindS::Str(s.subrange(p + 1, e - 1))
    } else if p < e && s[p] == LOWER_T {
        TokKindS::Bool(true)
    } else if p < e && s[p] == LOWER_F {
        TokKindS::Bool(false)
    } else if p < e && s[p] == LOWER_N {
        TokKindS::Null
    } else if p < e && ((DIGIT0 <= s[p] <= DIGIT9) || s[p] == MINUS) {
        match spec_int_of(s.subrange(p, e)) {
            Some(x) => TokKindS::Int(x),
            None => TokKindS::Other,
        }
    } else {
        TokKindS::Other
    };
    TokS { raw: s.subrange(p, e), kind }
}

fn tok_of(v: &Vec<u8>, p: usize, e: usize) -> (t: Tok)
    requires
        p < e <= v@.len(),
    ensures
        t@ == spec_tok_of(v@, p as int, e as int),
{
    let raw = vstd::slice::slice_to_vec(vstd::slice::slice_subrange(v.as_slice(), p, e));
    let c = v[p];
    let kind = if e - p >= 2 && c == QUOTE {
        TokKind::Str(
            vstd::slice::slice_to_vec(vstd::slice::slice_subrange(v.as_slice(), p + 1, e - 1)),
        )
    } else if c == LOWER_T {
        TokKind::Bool(true)
    } else if c == LOWER_F {
        TokKind::Bool(false)
    } else if c == LOWER_N {
        TokKind::Null
    } else if (DIGIT0 <= c && c <= DIGIT9) || c == MINUS {
        match int_of_span(v, p, e) {
            Some(x) => TokKind::Int(x),
            None => TokKind::Other,
        }
    } else {
        TokKind::Other
    };
    Tok { raw, kind }
}

/// The members of an object, read from the opening quote of the first
/// key at `i` through the closing brace; also yields the index just past
/// that brace.
pub open spec fn spec_entries(s: Seq<u8>, i: int, d: nat) -> Option<(Seq<EntryS>, int)>
    decreases d,
{
    if i < 0 || i >= s.len() || s[i] != QUOTE || d == 0 {
        None::<(Seq<EntryS>, int)>
    } else {
        match spec_str_body_end(s, i + 1) {
            None => None::<(Seq<EntryS>, int)>,
            Some(k) => {
                let key = s.subrange(i + 1, k - 1);
                let c = spec_skip_ws(s, k);
                if c >= s.len() || s[c] != COLON {
                    None::<(Seq<EntryS>, int)>
                } else {
                    let p = spec_skip_ws(s, c + 1);
                    match spec_value_end(s, p, (d - 1) as nat) {
                        None => None::<(Seq<EntryS>, int)>,
                        Some(e) => {
                            let ent = EntryS { key, val: spec_tok_of(s, p, e) };
                            let q = spec_skip_ws(s, e);
                            if q < s.len() && s[q] == COMMA {
                                match spec_entries(s, spec_skip_ws(s, q + 1), (d - 1) as nat) {
                                    None => None::<(Seq<EntryS>, int)>,
                                    Some((rest, end)) => Some((seq![ent] + rest, end)),
                                }
                            } else if q < s.len() && s[q] == RBRACE {
                                Some((seq![ent], q + 1))
                            } else {
                                None::<(Seq<EntryS>, int)>
                            }
                        },
                    }
                }
            },
        }
    }
}

pub open spec fn opt_entries_matches(
    r: Option<(Vec<Entry>, usize)>,
    m: Option<(Seq<EntryS>, int)>,
) -> bool {
    match r {
        Some((es, end)) => m matches Some((ms, mend)) && view_entries(es@) == ms && mend == end
            as int,
        None => m is None,
    }
}

pub fn entries(v: &Vec<u8>, i: usize, d: usize) -> (r: Option<(Vec<Entry>, usize)>)
    requires
        i <= v@.len(),
    ensures
        opt_entries_matches(r, spec_entries(v@, i as int, d as nat)),
        r matches Some((es, end)) ==> i < end <= v@.len(),
    decreases d,
{
    if i >= v.len() || v[i] != QUOTE || d == 0 {
        return None;
    }
    match str_body_end(v, i + 1) {
        None => None,
        Some(k) => {
            let key = vstd::slice::slice_to_vec(
                vstd::slice::slice_subrange(v.as_slice(), i + 1, k - 1),
            );
            let c = skip_ws(v, k);
            if c >= v.len() || v[c] != COLON {
                None
            } else {
                let p = skip_ws(v, c + 1);
                match value_end(v, p, d - 1) {
                    None => None,
                    Some(e) => {
                        let ent = Entry { key, val: tok_of(v, p, e) };
                        let q = skip_ws(v, e);
                        if q < v.len() && v[q] == COMMA {
                            let n = skip_ws(v, q + 1);
                            match entries(v, n, d - 1) {
                                None => None,
                                Some((rest, end)) => {
                                    let ghost rest_snap = rest@;
                                    let mut es = rest;
                                    es.insert(0, ent);
                                    proof {
                                        assert(view_entries(es@) =~= seq![ent@] + view_entries(
                                            rest_snap,
                                        ));
                                    }
                                    Some((es, end))
                                },
                            }
                        } else if q < v.len() && v[q] == RBRACE {
                            let es = vec![ent];
                            assert(view_entries(es@) =~= seq![ent@]);
                            Some((es, q + 1))
                        } else {
                            None
                        }
                    },
                }
            }
        },
    }
}

/// Fuel that covers any document the scanner can accept: the scan makes
/// at most a few recursive calls per byte.
pub open spec fn parse_fuel(s: Seq<u8>) -> nat {
    (4 * s.len() + 16) as nat
}

/// The top-level members of the single JSON object on the line, when the
/// whole line (up to surrounding whitespace) is one such object.  Lines
/// whose length could overflow the fuel computation are rejected; no such
/// line fits in an address space.
pub open spec fn spec_top_entries(s: Seq<u8>) -> Option<Seq<EntryS>> {
    if s.len() > (usize::MAX - 16) / 4 {
        None::<Seq<EntryS>>
    } else {
        let i0 = spec_skip_ws(s, 0);
        if i0 < s.len() && s[i0] == LBRACE {
            let j = spec_skip_ws(s, i0 + 1);
            if j < s.len() && s[j] == RBRACE {
                if spec_skip_ws(s, j + 1) == s.len() {
                    Some(Seq::<EntryS>::empty())
                } else {
                    None::<Seq<EntryS>>
                }
            } else {
                match spec_entries(s, j, parse_fuel(s)) {
                    None => None::<Seq<EntryS>>,
                    Some((es, end)) => {
                        if spec_skip_ws(s, end) == s.len() {
                            Some(es)
                        } else {
                            None::<Seq<EntryS>>
                        }
                    },
                }
            }
        } else {
            None::<Seq<EntryS>>
        }
    }
}

/// Parses one line as a JSON object and hands out its top-level members.
pub fn top_entries(v: &Vec<u8>) -> (r: Option<Vec<Entry>>)
    ensures
        match r {
            Some(es) => spec_top_entries(v@) == Some(view_entries(es@)),
            None => spec_top_entries(v@) is None,
        },
{
    if v.len() > (usize::MAX - 16) / 4 {
        return None;
    }
    let i0 = skip_ws(v, 0);
    if i0 < v.len() && v[i0] == LBRACE {
        let j = skip_ws(v, i0 + 1);
        if j < v.len() && v[j] == RBRACE {
            if skip_ws(v, j + 1) == v.len() {
                let es: Vec<Entry> = Vec::new();
                assert(view_entries(es@) =~= Seq::<EntryS>::empty());
                Some(es)
            } else {
                None
            }
        } else {
            let d: usize = 4 * v.len() + 16;
            match entries(v, j, d) {
                None => None,
                Some((es, end)) => {
                    if skip_ws(v, end) == v.len() {
                        Some(es)
                    } else {
                        None
                    }
                },
            }
        }
    } else {
        None
    }
}

/// How many members carry the key `k`.
pub open spec fn key_count(es: Seq<EntryS>, k: Seq<u8>) -> nat
    decreases es.len(),
{
    if es.len() == 0 {
        0
    } else {
        (if es[0].key == k {
            1nat
        } else {
            0nat
        }) + key_count(es.skip(1), k)
    }
}

/// The value of the first member carrying the key `k`.
pub open spec fn find_key(es: Seq<EntryS>, k: Seq<u8>) -> Option<TokS>
    decreases es.len(),
{
    if es.len() == 0 {
        None::<TokS>
    } else if es[0].key == k {
        Some(es[0].val)
    } else {
        find_key(es.skip(1), k)
    }
}

/// The value of the last member carrying the key `k`.
pub open spec fn find_key_last(es: Seq<EntryS>, k: Seq<u8>) -> Option<TokS>
    decreases es.len(),
{
    if es.len() == 0 {
        None::<TokS>
    } else if es.last().key == k {
        Some(es.last().val)
    } else {
        find_key_last(es.drop_last(), k)
    }
}

proof fn lemma_key_count_take_step(es: Seq<EntryS>, k: Seq<u8>, i: int)
    requires
        0 <= i < es.len(),
    ensures
        key_count(es.take(i + 1), k) == key_count(es.take(i), k) + (if es[i].key == k {
            1nat
        } else {
            0nat
        }),
        find_key(es.take(i + 1), k) == (if find_key(es.take(i), k) is Some {
            find_key(es.take(i), k)
        } else if es[i].key == k {
            Some(es[i].val)
        } else {
            None::<TokS>
        }),
    decreases i,
{
    if i == 0 {
        assert(es.take(1).skip(1) =~= Seq::<EntryS>::empty());
        assert(es.take(0) =~= Seq::<EntryS>::empty());
    } else {
        lemma_key_count_take_step(es.skip(1), k, i - 1);
        assert(es.take(i + 1).skip(1) =~= es.skip(1).take(i));
        assert(es.take(i).skip(1) =~= es.skip(1).take(i - 1));
        assert(es.skip(1)[i - 1] == es[i]);
    }
}

/// Scans the members for the key `k`: yields how many members carry it
/// (clamped at 2) and the index of the first one.
pub fn lookup(es: &Vec<Entry>, k: &Vec<u8>) -> (r: (usize, usize))
    ensures
        (r.0 == 0) == (key_count(view_entries(es@), k@) == 0),
        (r.0 == 1) == (key_count(view_entries(es@), k@) == 1),
        (r.0 == 2) == (key_count(view_entries(es@), k@) >= 2),
        r.0 >= 1 ==> r.1 < es@.len() && es@[r.1 as int]@.key == k@ && find_key(
            view_entries(es@),
            k@,
        ) == Some(es@[r.1 as int]@.val),
        r.0 == 0 ==> find_key(view_entries(es@), k@) is None,
{
    let ghost full = view_entries(es@);
    let mut count: usize = 0;
    let mut first: usize = 0;
    let mut i: usize = 0;
    while i < es.len()
        invariant
            i <= es.len(),
            full == view_entries(es@),
            count <= 2,
            (count == 0) == (key_count(full.take(i as int), k@) == 0),
            (count == 1) == (key_count(full.take(i as int), k@) == 1),
            (count == 2) == (key_count(full.take(i as int), k@) >= 2),
            count >= 1 ==> first < i && full[first as int].key == k@ && find_key(
                full.take(i as int),
                k@,
            ) == Some(full[first as int].val),
            count == 0 ==> find_key(full.take(i as int), k@) is None,
        decreases es.len() - i,
    {
        proof {
            lemma_key_count_take_step(full, k@, i as int);
        }
        if crate::bytes::bytes_eq(&es[i].key, k) {
            if count == 0 {
                first = i;
            }
            if count < 2 {
                count = count + 1;
            }
        }
        i = i + 1;
    }
    proof {
        assert(full.take(es@.len() as int) =~= full);
    }
    (count, first)
}

/// The index of the last member carrying the key `k`, if any.
pub fn lookup_last(es: &Vec<Entry>, k: &Vec<u8>) -> (r: Option<usize>)
    ensures
        match r {
            Some(j) => j < es@.len() && es@[j as int]@.key == k@ && find_key_last(
                view_entries(es@),
                k@,
            ) == Some(es@[j as int]@.val),
            None => find_key_last(view_entries(es@), k@) is None,
        },
{
    let ghost full = view_entries(es@);
    let mut found: Option<usize> = None;
    let mut i: usize = 0;
    while i < es.len()
        invariant
            i <= es.len(),
            full == view_entries(es@),
            match found {
                Some(j) => j < i && full[j as int].key == k@ && find_key_last(
                    full.take(i as int),
                    k@,
                ) == Some(full[j as int].val),
                None => find_key_last(full.take(i as int), k@) is None,
            },
        decreases es.len() - i,
    {
        proof {
            assert(full.take(i + 1).drop_last() =~= full.take(i as int));
            assert(full.take(i + 1).last() == full[i as int]);
        }
        if crate::bytes::bytes_eq(&es[i].key, k) {
            found = Some(i);
        }
        i = i + 1;
    }
    proof {
        assert(full.take(es@.len() as int) =~= full);
    }
    found
}

} // verus!
