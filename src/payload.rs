use vstd::prelude::*;
use vstd::string::{StrSliceExecFns, StringExecFns};
use crate::registry::{Chunk, Poll, WaitStep};

verus! {

/// The characters that stand for the hex digit `n` (lower case).
pub open spec fn hex_digit(n: nat) -> Seq<char> {
    if n == 0 { "0"@ }
    else if n == 1 { "1"@ }
    else if n == 2 { "2"@ }
    else if n == 3 { "3"@ }
    else if n == 4 { "4"@ }
    else if n == 5 { "5"@ }
    else if n == 6 { "6"@ }
    else if n == 7 { "7"@ }
    else if n == 8 { "8"@ }
    else if n == 9 { "9"@ }
    else if n == 10 { "a"@ }
    else if n == 11 { "b"@ }
    else if n == 12 { "c"@ }
    else if n == 13 { "d"@ }
    else if n == 14 { "e"@ }
    else { "f"@ }
}

/// How one character is written inside a JSON string literal.
pub open spec fn escape_char(c: char) -> Seq<char> {
    if c == '"' {
        "\\\""@
    } else if c == '\\' {
        "\\\\"@
    } else if c == '\n' {
        "\\n"@
    } else if c == '\r' {
        "\\r"@
    } else if c == '\t' {
        "\\t"@
    } else if (c as u32) < 0x20 {
        "\\u00"@ + hex_digit((c as u32 / 16) as nat) + hex_digit((c as u32 % 16) as nat)
    } else {
        seq![c]
    }
}

/// The body of a JSON string literal holding `s`.
pub open spec fn escaped(s: Seq<char>) -> Seq<char>
    decreases s.len(),
{
    if s.len() == 0 {
        Seq::empty()
    } else {
        escaped(s.drop_last()) + escape_char(s.last())
    }
}

/// The error payload handed to callers: `{"error":"<message>"}`.
pub open spec fn error_payload(message: Seq<char>) -> Seq<char> {
    "{\"error\":\""@ + escaped(message) + "\"}"@
}

fn hex_digit_str(n: u32) -> (r: &'static str)
    requires
        n < 16,
    ensures
        r@ == hex_digit(n as nat),
{
    match n {
        0 => "0",
        1 => "1",
        2 => "2",
        3 => "3",
        4 => "4",
        5 => "5",
        6 => "6",
        7 => "7",
        8 => "8",
        9 => "9",
        10 => "a",
        11 => "b",
        12 => "c",
        13 => "d",
        14 => "e",
        _ => "f",
    }
}

/// Appends to `out` the JSON string escape of the single character `c`,
/// which is the one character of `single`.
fn push_escaped(out: &mut String, c: char, single: &str)
    requires
        single@ == seq![c],
    ensures
        final(out)@ == old(out)@ + escape_char(c),
{
    if c == '"' {
        out.append("\\\"");
    } else if c == '\\' {
        out.append("\\\\");
    } else if c == '\n' {
        out.append("\\n");
    } else if c == '\r' {
        out.append("\\r");
    } else if c == '\t' {
        out.append("\\t");
    } else if (c as u32) < 0x20 {
        let code = c as u32;
        out.append("\\u00");
        out.append(hex_digit_str(code / 16));
        out.append(hex_digit_str(code % 16));
    } else {
        out.append(single);
    }
}

/// Escapes `s` for use inside a JSON string literal: quotes, backslashes
/// and control characters are written as escape sequences.
pub fn escape_json_text(s: &str) -> (r: String)
    ensures
        r@ == escaped(s@),
{
    let n = s.unicode_len();
    let mut out = String::new();
    let mut i: usize = 0;
    while i < n
        invariant
            n == s@.len(),
            i <= n,
            out@ == escaped(s@.subrange(0, i as int)),
        decreases n - i,
    {
        let c = s.get_char(i);
        let single = s.substring_char(i, i + 1);
        proof {
            assert(single@ =~= seq![c]);
        }
        push_escaped(&mut out, c, single);
        proof {
            let next = s@.subrange(0, i + 1);
            assert(next.drop_last() =~= s@.subrange(0, i as int));
            assert(next.last() == c);
        }
        i = i + 1;
    }
    proof {
        assert(s@.subrange(0, n as int) =~= s@);
    }
    out
}

/// Builds the error payload `{"error":"<message>"}`, with the message escaped.
pub fn error_json(message: &str) -> (r: String)
    ensures
        r@ == error_payload(message@),
{
    let mut out = String::new();
    out.append("{\"error\":\"");
    let body = escape_json_text(message);
    out.append(body.as_str());
    out.append("\"}");
    proof {
        assert(out@ =~= error_payload(message@));
    }
    out
}

} // verus!

verus! {

/// Whether `c` has the Unicode White_Space property: tab through carriage
/// return, space, next line, no-break space, ogham space mark, the spaces from
/// en quad to hair space, line and paragraph separators, narrow no-break space,
/// medium mathematical space and ideographic space.
pub open spec fn white_space(c: char) -> bool {
    let u = c as u32;
    (0x09 <= u && u <= 0x0D) || u == 0x20 || u == 0x85 || u == 0xA0 || u == 0x1680 || (0x2000 <= u
        && u <= 0x200A) || u == 0x2028 || u == 0x2029 || u == 0x202F || u == 0x205F || u == 0x3000
}

/// Whether `c` has the Unicode White_Space property.
fn is_white_space(c: char) -> (r: bool)
    ensures
        r == white_space(c),
{
    let u = c as u32;
    (0x09 <= u && u <= 0x0D) || u == 0x20 || u == 0x85 || u == 0xA0 || u == 0x1680 || (0x2000 <= u
        && u <= 0x200A) || u == 0x2028 || u == 0x2029 || u == 0x202F || u == 0x205F || u == 0x3000
}

/// Whether `s` is empty once surrounding whitespace is trimmed, that is,
/// whether every character of `s` is whitespace.
pub open spec fn blank(s: Seq<char>) -> bool {
    forall|i: int| 0 <= i < s.len() ==> white_space(#[trigger] s[i])
}

/// Tells whether `s` holds nothing but whitespace (or nothing at all).
pub fn is_blank(s: &str) -> (r: bool)
    ensures
        r == blank(s@),
{
    let n = s.unicode_len();
    let mut i: usize = 0;
    while i < n
        invariant
            n == s@.len(),
            i <= n,
            forall|j: int| 0 <= j < i ==> white_space(#[trigger] s@[j]),
        decreases n - i,
    {
        if !is_white_space(s.get_char(i)) {
            return false;
        }
        i = i + 1;
    }
    true
}

} // verus!

verus! {

/// The JSON text of a chunk as callers receive it.
pub open spec fn chunk_payload(c: Chunk) -> Seq<char> {
    match c {
        Chunk::ToolDescriptor(t) => "{\"type\":\"tool\",\"tool\":"@ + t@ + "}"@,
        Chunk::TextFragment(t) => "{\"type\":\"text\",\"text\":\""@ + escaped(t@) + "\"}"@,
        Chunk::Error(m) => "{\"type\":\"error\",\"error\":\""@ + escaped(m@) + "\"}"@,
        Chunk::Done => "{\"type\":\"done\"}"@,
    }
}

/// Writes a chunk as JSON: `{"type":"tool","tool":<descriptor>}`,
/// `{"type":"text","text":"..."}`, `{"type":"error","error":"..."}` or
/// `{"type":"done"}`.
pub fn chunk_json(c: &Chunk) -> (r: String)
    ensures
        r@ == chunk_payload(*c),
{
    match c {
        Chunk::ToolDescriptor(t) => {
            String::from_str("{\"type\":\"tool\",\"tool\":").concat(t.as_str()).concat("}")
        },
        Chunk::TextFragment(t) => {
            let body = escape_json_text(t.as_str());
            String::from_str("{\"type\":\"text\",\"text\":\"").concat(body.as_str()).concat("\"}")
        },
        Chunk::Error(m) => {
            let body = escape_json_text(m.as_str());
            String::from_str("{\"type\":\"error\",\"error\":\"").concat(body.as_str()).concat("\"}")
        },
        Chunk::Done => String::from_str("{\"type\":\"done\"}"),
    }
}

/// What a caller receives for a poll: the chunk, an error for an unknown id,
/// or nothing (no data yet).
pub open spec fn poll_payload(p: Poll) -> Option<Seq<char>> {
    match p {
        Poll::Ready(c) => Some(chunk_payload(c)),
        Poll::Empty => None,
        Poll::Unknown => Some(error_payload("Unknown stream"@)),
    }
}

/// Writes the outcome of a poll for the caller; `None` stands for "no data
/// yet".
pub fn poll_json(p: &Poll) -> (r: Option<String>)
    ensures
        r is None <==> poll_payload(*p) is None,
        r matches Some(s) ==> poll_payload(*p) == Some(s@),
{
    match p {
        Poll::Ready(c) => Some(chunk_json(c)),
        Poll::Empty => None,
        Poll::Unknown => Some(error_json("Unknown stream")),
    }
}

/// What a caller receives when a wait ends with `step`: the chunk, a closed
/// marker, or nothing (the time is up).
pub open spec fn wait_payload(step: WaitStep) -> Option<Seq<char>> {
    match step {
        WaitStep::Deliver(c) => Some(chunk_payload(c)),
        WaitStep::Closed => Some("{\"type\":\"closed\"}"@),
        WaitStep::TimedOut => None,
        WaitStep::Sleep(_) => None,
    }
}

/// Writes the outcome of a wait for the caller; `None` stands for "timed out".
pub fn wait_json(step: &WaitStep) -> (r: Option<String>)
    ensures
        r is None <==> wait_payload(*step) is None,
        r matches Some(s) ==> wait_payload(*step) == Some(s@),
{
    match step {
        WaitStep::Deliver(c) => Some(chunk_json(c)),
        WaitStep::Closed => Some(String::from_str("{\"type\":\"closed\"}")),
        WaitStep::TimedOut => None,
        WaitStep::Sleep(_) => None,
    }
}

/// The version of this library, as reported to callers.
pub fn version() -> (r: &'static str)
    ensures
        r@ == "0.1.4"@,
{
    "0.1.4"
}

} // verus!
