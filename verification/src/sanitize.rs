//! Paste-safe token checks for local faces.
//!
//! Control characters, newlines, and ANSI introducers can forge receipt fields
//! or drive a terminal. Reject them; do not echo raw untrusted strings.

use vstd::prelude::*;
use vstd::string::*;
use vstd::utf8::*;

verus! {

/// Maximum length for a terminal program name.
pub const MAX_TERM: usize = 32;

/// Maximum length for channel, team, or cursor tokens.
pub const MAX_ID: usize = 128;

/// Maximum length for a timeout token (`20m`, `60s`).
pub const MAX_TIMEOUT: usize = 16;

/// Maximum length for an event body.
pub const MAX_BODY: usize = 4_096;

/// A control character: below the space, or from delete up to the second
/// control block's end.
pub open spec fn control(c: char) -> bool {
    c < ' ' || '\u{7f}' <= c <= '\u{9f}'
}

/// Text that is bounded and free of control characters.
pub open spec fn paste_safe(raw: Seq<char>, max: usize) -> bool {
    &&& 0 < raw.len()
    &&& encode_utf8(raw).len() <= max
    &&& forall|i: int| 0 <= i < raw.len() ==> !control(#[trigger] raw[i])
}

/// Return the token when it is bounded and free of control characters.
pub fn paste_token(raw: &str, max: usize) -> (token: Option<&str>)
    ensures
        match token {
            Some(token) => paste_safe(raw@, max) && token@ == raw@,
            None => !paste_safe(raw@, max),
        },
{
    if raw.is_empty() || raw.as_bytes().len() > max {
        return None;
    }
    let len: usize = raw.unicode_len();
    let mut i: usize = 0;
    while i < len
        invariant
            i <= len,
            len == raw@.len(),
            forall|j: int| 0 <= j < i ==> !control(#[trigger] raw@[j]),
        decreases len - i,
    {
        let c = raw.get_char(i);
        if c < ' ' || ('\u{7f}' <= c && c <= '\u{9f}') {
            assert(control(raw@[i as int]));
            return None;
        }
        i += 1;
    }
    Some(raw)
}

/// What a paste-safe face shows of a text.
pub open spec fn pasted(raw: Seq<char>, max: usize) -> Seq<char> {
    if paste_safe(raw, max) {
        raw
    } else {
        "rejected"@
    }
}

/// Render a token or `rejected` when it cannot appear on a paste-safe face.
pub fn paste_field(raw: &str, max: usize) -> (field: String)
    ensures
        field@ == pasted(raw@, max),
{
    match paste_token(raw, max) {
        Some(token) => token.to_owned(),
        None => "rejected".to_owned(),
    }
}

/// What a quoting face shows of an event body.
pub open spec fn pasted_body(raw: Seq<char>, max: usize) -> Seq<char> {
    if encode_utf8(raw).len() <= max {
        raw
    } else {
        "rejected"@
    }
}

/// Render a bounded body. The face that shows it quotes control characters.
pub fn paste_body(raw: &str, max: usize) -> (body: String)
    ensures
        body@ == pasted_body(raw@, max),
{
    if raw.as_bytes().len() > max {
        "rejected".to_owned()
    } else {
        raw.to_owned()
    }
}

/// What a paste-safe face shows never holds a control character, so it cannot
/// end a line and forge another field.
pub proof fn pasted_field_stays_on_its_line(raw: Seq<char>, max: usize, i: int)
    requires
        0 <= i < pasted(raw, max).len(),
    ensures
        !control(pasted(raw, max)[i]),
        pasted(raw, max)[i] != '\n',
        pasted(raw, max)[i] != '\u{1b}',
{
    reveal_strlit("rejected");
}

} // verus!
