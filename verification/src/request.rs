//! The framed request writer: renders one request as a single JSON
//! document and frames it as one line for the worker's input channel.
//!
//! The driver writes the framed line, flushes, and then closes the
//! channel unconditionally — closing is the only end-of-input signal the
//! worker gets.

use vstd::prelude::*;
use crate::json::{QUOTE, BACKSLASH, LBRACE, RBRACE, COLON, COMMA};
use crate::bridge::BridgeError;
use crate::wire::kw_content;

verus! {

pub const LF: u8 = 10;
pub const CR: u8 = 13;

/// "command"
pub open spec fn kw_command() -> Seq<u8> {
    seq![99u8, 111u8, 109u8, 109u8, 97u8, 110u8, 100u8]
}

/// "filePath"
pub open spec fn kw_file_path() -> Seq<u8> {
    seq![102u8, 105u8, 108u8, 101u8, 80u8, 97u8, 116u8, 104u8]
}

/// "fileName"
pub open spec fn kw_file_name() -> Seq<u8> {
    seq![102u8, 105u8, 108u8, 101u8, 78u8, 97u8, 109u8, 101u8]
}

/// "options"
pub open spec fn kw_options() -> Seq<u8> {
    seq![111u8, 112u8, 116u8, 105u8, 111u8, 110u8, 115u8]
}

pub fn kw_command_bytes() -> (v: Vec<u8>)
    ensures
        v@ == kw_command(),
{
    let v: Vec<u8> = vec![99, 111, 109, 109, 97, 110, 100];
    assert(v@ =~= kw_command());
    v
}

pub fn kw_file_path_bytes() -> (v: Vec<u8>)
    ensures
        v@ == kw_file_path(),
{
    let v: Vec<u8> = vec![102, 105, 108, 101, 80, 97, 116, 104];
    assert(v@ =~= kw_file_path());
    v
}

pub fn kw_file_name_bytes() -> (v: Vec<u8>)
    ensures
        v@ == kw_file_name(),
{
    let v: Vec<u8> = vec![102, 105, 108, 101, 78, 97, 109, 101];
    assert(v@ =~= kw_file_name());
    v
}

pub fn kw_options_bytes() -> (v: Vec<u8>)
    ensures
        v@ == kw_options(),
{
    let v: Vec<u8> = vec![111, 112, 116, 105, 111, 110, 115];
    assert(v@ =~= kw_options());
    v
}

/// The lower-case hex digit for `n < 16`.
pub open spec fn hex_digit(n: u8) -> u8 {
    if n < 10 {
        (48 + n) as u8
    } else {
        (87 + n) as u8
    }
}

/// How one byte of a string value is written inside quotes: quote and
/// backslash are escaped, control bytes become `\u00XX`, everything else
/// stands as it is.
pub open spec fn escape_byte(c: u8) -> Seq<u8> {
    if c == QUOTE {
        seq![BACKSLASH, QUOTE]
    } else if c == BACKSLASH {
        seq![BACKSLASH, BACKSLASH]
    } else if c < 32 {
        seq![BACKSLASH, 117u8, 48u8, 48u8, hex_digit(c / 16), hex_digit(c % 16)]
    } else {
        seq![c]
    }
}

pub open spec fn spec_escape(s: Seq<u8>) -> Seq<u8>
    decreases s.len(),
{
    if s.len() == 0 {
        Seq::empty()
    } else {
        spec_escape(s.drop_last()) + escape_byte(s.last())
    }
}

/// Appends `s` to `out`.
pub fn push_all(out: &mut Vec<u8>, s: &Vec<u8>)
    ensures
        final(out)@ == old(out)@ + s@,
{
    let mut i: usize = 0;
    while i < s.len()
        invariant
            i <= s@.len(),
            out@ == old(out)@ + s@.take(i as int),
        decreases s@.len() - i,
    {
        out.push(s[i]);
        assert(old(out)@ + s@.take(i + 1) =~= (old(out)@ + s@.take(i as int)).push(s@[i as int]));
        i = i + 1;
    }
    assert(s@.take(s@.len() as int) =~= s@);
}

/// Appends the escaped form of `s` to `out`.
pub fn push_escaped(out: &mut Vec<u8>, s: &Vec<u8>)
    ensures
        final(out)@ == old(out)@ + spec_escape(s@),
{
    let mut i: usize = 0;
    while i < s.len()
        invariant
            i <= s@.len(),
            out@ == old(out)@ + spec_escape(s@.take(i as int)),
        decreases s@.len() - i,
    {
        let c = s[i];
        let ghost pre = s@.take(i as int);
        if c == QUOTE {
            out.push(BACKSLASH);
            out.push(QUOTE);
        } else if c == BACKSLASH {
            out.push(BACKSLASH);
            out.push(BACKSLASH);
        } else if c < 32 {
            out.push(BACKSLASH);
            out.push(117);
            out.push(48);
            out.push(48);
            let hi = c / 16;
            let lo = c % 16;
            out.push(
                if hi < 10 {
                    48 + hi
                } else {
                    87 + hi
                },
            );
            out.push(
                if lo < 10 {
                    48 + lo
                } else {
                    87 + lo
                },
            );
        } else {
            out.push(c);
        }
        proof {
            let cur = s@.take(i + 1);
            assert(cur.drop_last() =~= pre);
            assert(cur.last() == c);
            assert(out@ =~= old(out)@ + spec_escape(cur));
        }
        i = i + 1;
    }
    assert(s@.take(s@.len() as int) =~= s@);
}

/// A member whose value is a string: `"key":"escaped value"`.
pub open spec fn member_str(key: Seq<u8>, val: Seq<u8>) -> Seq<u8> {
    seq![QUOTE] + key + seq![QUOTE, COLON, QUOTE] + spec_escape(val) + seq![QUOTE]
}

/// A member whose value is raw JSON text: `"key":raw`.
pub open spec fn member_raw(key: Seq<u8>, raw: Seq<u8>) -> Seq<u8> {
    seq![QUOTE] + key + seq![QUOTE, COLON] + raw
}

fn push_member_str(out: &mut Vec<u8>, key: &Vec<u8>, val: &Vec<u8>)
    ensures
        final(out)@ == old(out)@ + member_str(key@, val@),
{
    out.push(QUOTE);
    push_all(out, key);
    out.push(QUOTE);
    out.push(COLON);
    out.push(QUOTE);
    push_escaped(out, val);
    out.push(QUOTE);
    assert(out@ =~= old(out)@ + member_str(key@, val@));
}

fn push_member_raw(out: &mut Vec<u8>, key: &Vec<u8>, raw: &Vec<u8>)
    ensures
        final(out)@ == old(out)@ + member_raw(key@, raw@),
{
    out.push(QUOTE);
    push_all(out, key);
    out.push(QUOTE);
    out.push(COLON);
    push_all(out, raw);
    assert(out@ =~= old(out)@ + member_raw(key@, raw@));
}

/// One request to the worker: the command discriminator, the file the
/// work is about, and the optional payload fields.  `options` carries
/// raw JSON text supplied by the caller.
#[derive(Debug, Clone, PartialEq, Eq)]
pub struct PythonRequest {
    pub command: Vec<u8>,
    pub file_path: Vec<u8>,
    pub content: Option<Vec<u8>>,
    pub file_name: Option<Vec<u8>>,
    pub options: Option<Vec<u8>>,
}

pub struct PythonRequestS {
    pub command: Seq<u8>,
    pub file_path: Seq<u8>,
    pub content: Option<Seq<u8>>,
    pub file_name: Option<Seq<u8>>,
    pub options: Option<Seq<u8>>,
}

impl View for PythonRequest {
    type V = PythonRequestS;

    open spec fn view(&self) -> PythonRequestS {
        PythonRequestS {
            command: self.command@,
            file_path: self.file_path@,
            content: match self.content {
                Some(ref b) => Some(b@),
                None => None,
            },
            file_name: match self.file_name {
                Some(ref b) => Some(b@),
                None => None,
            },
            options: match self.options {
                Some(ref b) => Some(b@),
                None => None,
            },
        }
    }
}

/// The single JSON document for a request: `command` and `filePath`
/// always, then `content`, `fileName` and `options` when present, in
/// that order.
pub open spec fn spec_render_request(r: PythonRequestS) -> Seq<u8> {
    seq![LBRACE] + member_str(kw_command(), r.command) + seq![COMMA] + member_str(
        kw_file_path(),
        r.file_path,
    ) + (match r.content {
        Some(c) => seq![COMMA] + member_str(kw_content(), c),
        None => Seq::<u8>::empty(),
    }) + (match r.file_name {
        Some(f) => seq![COMMA] + member_str(kw_file_name(), f),
        None => Seq::<u8>::empty(),
    }) + (match r.options {
        Some(o) => seq![COMMA] + member_raw(kw_options(), o),
        None => Seq::<u8>::empty(),
    }) + seq![RBRACE]
}

/// Renders one request as a single JSON document.
pub fn render_request(r: &PythonRequest) -> (out: Vec<u8>)
    ensures
        out@ == spec_render_request(r@),
{
    let mut out: Vec<u8> = Vec::new();
    out.push(LBRACE);
    push_member_str(&mut out, &kw_command_bytes(), &r.command);
    out.push(COMMA);
    push_member_str(&mut out, &kw_file_path_bytes(), &r.file_path);
    match &r.content {
        Some(c) => {
            out.push(COMMA);
            push_member_str(&mut out, &crate::wire::kw_content_bytes(), c);
        },
        None => {},
    }
    match &r.file_name {
        Some(f) => {
            out.push(COMMA);
            push_member_str(&mut out, &kw_file_name_bytes(), f);
        },
        None => {},
    }
    match &r.options {
        Some(o) => {
            out.push(COMMA);
            push_member_raw(&mut out, &kw_options_bytes(), o);
        },
        None => {},
    }
    out.push(RBRACE);
    assert(out@ =~= spec_render_request(r@));
    out
}

/// A document the worker wants only the command of:
/// `{"command":"..."}`.
pub open spec fn spec_render_command_only(command: Seq<u8>) -> Seq<u8> {
    seq![LBRACE] + member_str(kw_command(), command) + seq![RBRACE]
}

pub fn render_command_only(command: &Vec<u8>) -> (out: Vec<u8>)
    ensures
        out@ == spec_render_command_only(command@),
{
    let mut out: Vec<u8> = Vec::new();
    out.push(LBRACE);
    push_member_str(&mut out, &kw_command_bytes(), command);
    out.push(RBRACE);
    assert(out@ =~= spec_render_command_only(command@));
    out
}

/// A command document with one extra member holding raw JSON text:
/// `{"command":"...","key":raw}`.
pub open spec fn spec_render_command_with_raw(
    command: Seq<u8>,
    key: Seq<u8>,
    raw: Seq<u8>,
) -> Seq<u8> {
    seq![LBRACE] + member_str(kw_command(), command) + seq![COMMA] + member_raw(key, raw) + seq![
        RBRACE,
    ]
}

pub fn render_command_with_raw(command: &Vec<u8>, key: &Vec<u8>, raw: &Vec<u8>) -> (out: Vec<u8>)
    ensures
        out@ == spec_render_command_with_raw(command@, key@, raw@),
{
    let mut out: Vec<u8> = Vec::new();
    out.push(LBRACE);
    push_member_str(&mut out, &kw_command_bytes(), command);
    out.push(COMMA);
    push_member_raw(&mut out, key, raw);
    out.push(RBRACE);
    assert(out@ =~= spec_render_command_with_raw(command@, key@, raw@));
    out
}

/// A command document with one extra member holding a string:
/// `{"command":"...","key":"escaped text"}`.
pub open spec fn spec_render_command_with_text(
    command: Seq<u8>,
    key: Seq<u8>,
    text: Seq<u8>,
) -> Seq<u8> {
    seq![LBRACE] + member_str(kw_command(), command) + seq![COMMA] + member_str(key, text) + seq![
        RBRACE,
    ]
}

pub fn render_command_with_text(command: &Vec<u8>, key: &Vec<u8>, text: &Vec<u8>) -> (out: Vec<
    u8,
>)
    ensures
        out@ == spec_render_command_with_text(command@, key@, text@),
{
    let mut out: Vec<u8> = Vec::new();
    out.push(LBRACE);
    push_member_str(&mut out, &kw_command_bytes(), command);
    out.push(COMMA);
    push_member_str(&mut out, key, text);
    out.push(RBRACE);
    assert(out@ =~= spec_render_command_with_text(command@, key@, text@));
    out
}

/// A document can be framed when nothing in it can pass for a line
/// break on the wire.
pub open spec fn spec_frameable(body: Seq<u8>) -> bool {
    forall|k: int| 0 <= k < body.len() ==> body[k] != LF && body[k] != CR
}

/// The framed line: the document followed by the line terminator.
pub open spec fn spec_frame(body: Seq<u8>) -> Seq<u8> {
    body + seq![LF]
}

/// Frames one rendered document as a single line.  A document holding a
/// line break cannot be framed — it would be read back as two lines —
/// and is refused as a write failure, exactly then.  Escaped string
/// members never hold one; only caller-supplied raw JSON can.
pub fn frame_line(body: &Vec<u8>) -> (r: Result<Vec<u8>, BridgeError>)
    ensures
        match r {
            Ok(line) => spec_frameable(body@) && line@ == spec_frame(body@),
            Err(e) => !spec_frameable(body@) && e is WriteFailure,
        },
{
    let mut i: usize = 0;
    while i < body.len()
        invariant
            i <= body@.len(),
            forall|k: int| 0 <= k < i ==> body@[k] != LF && body@[k] != CR,
        decreases body@.len() - i,
    {
        if body[i] == LF || body[i] == CR {
            return Err(BridgeError::WriteFailure);
        }
        i = i + 1;
    }
    let mut line = vstd::slice::slice_to_vec(body.as_slice());
    line.push(LF);
    assert(line@ =~= spec_frame(body@));
    Ok(line)
}

} // verus!
