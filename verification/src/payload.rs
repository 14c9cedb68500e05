//! JSON payload handling: deciding whether a payload text is well-formed
//! JSON, and escaping identifier strings for embedding in JSON documents.

use vstd::prelude::*;
use vstd::string::StrSliceExecFns;
use crate::util::push_char;

verus! {

/// Whether a text parses as a JSON document. The result depends on the
/// characters of the text alone.
pub uninterp spec fn json_wf(s: Seq<char>) -> bool;

/// Relies on `serde_json::from_str::<serde_json::Value>`: parsing either
/// succeeds or fails, deterministically in the input text.
#[verifier::external_body]
pub fn json_parse_ok(s: &str) -> (r: bool)
    ensures
        r == json_wf(s@),
{
    serde_json::from_str::<serde_json::Value>(s).is_ok()
}

/// The lower-case hexadecimal digit for a value below 16.
pub open spec fn hex_digit(d: int) -> char {
    "0123456789abcdef"@[d]
}

fn hex_digit_exec(d: u32) -> (c: char)
    requires
        0 <= d < 16,
    ensures
        c == hex_digit(d as int),
{
    proof {
        reveal_strlit("0123456789abcdef");
    }
    "0123456789abcdef".get_char(d as usize)
}

/// How one character is written inside a JSON string literal: quotes and
/// backslashes get a backslash escape, control characters are written as
/// `\u00XX`, and every other character stands for itself.
pub open spec fn escaped_char(c: char) -> Seq<char> {
    if c == '"' {
        seq!['\\', '"']
    } else if c == '\\' {
        seq!['\\', '\\']
    } else if (c as u32) < 0x20 {
        seq!['\\', 'u', '0', '0', hex_digit(c as u32 as int / 16), hex_digit(c as u32 as int % 16)]
    } else {
        seq![c]
    }
}

/// A text escaped for embedding between the quotes of a JSON string literal.
pub open spec fn escape_json(s: Seq<char>) -> Seq<char>
    decreases s.len(),
{
    if s.len() == 0 {
        Seq::empty()
    } else {
        escaped_char(s[0]) + escape_json(s.subrange(1, s.len() as int))
    }
}

proof fn lemma_escape_json_push(s: Seq<char>, c: char)
    ensures
        escape_json(s.push(c)) == escape_json(s) + escaped_char(c),
    decreases s.len(),
{
    let sp = s.push(c);
    if s.len() == 0 {
        assert(sp.subrange(1, sp.len() as int) =~= Seq::<char>::empty());
        assert(sp[0] == c);
        assert(escape_json(Seq::<char>::empty()) =~= Seq::<char>::empty());
        assert(escaped_char(c) + Seq::<char>::empty() =~= escaped_char(c));
        assert(Seq::<char>::empty() + escaped_char(c) =~= escaped_char(c));
    } else {
        assert(sp.subrange(1, sp.len() as int) =~= s.subrange(1, s.len() as int).push(c));
        lemma_escape_json_push(s.subrange(1, s.len() as int), c);
        assert(escape_json(sp) =~= escape_json(s) + escaped_char(c));
    }
}

/// Escapes a text for embedding in a JSON string literal.
pub fn escape_json_text(s: &str) -> (r: String)
    ensures
        r@ == escape_json(s@),
{
    let len = s.unicode_len();
    let mut out = String::new();
    let mut i: usize = 0;
    proof {
        assert(s@.subrange(0, 0) =~= Seq::<char>::empty());
    }
    while i < len
        invariant
            len == s@.len(),
            i <= len,
            out@ == escape_json(s@.subrange(0, i as int)),
        decreases len - i,
    {
        let c = s.get_char(i);
        if c == '"' {
            push_char(&mut out, '\\');
            push_char(&mut out, '"');
        } else if c == '\\' {
            push_char(&mut out, '\\');
            push_char(&mut out, '\\');
        } else if (c as u32) < 0x20 {
            let n = c as u32;
            push_char(&mut out, '\\');
            push_char(&mut out, 'u');
            push_char(&mut out, '0');
            push_char(&mut out, '0');
            push_char(&mut out, hex_digit_exec(n / 16));
            push_char(&mut out, hex_digit_exec(n % 16));
        } else {
            push_char(&mut out, c);
        }
        proof {
            assert(s@.subrange(0, i + 1) =~= s@.subrange(0, i as int).push(s@[i as int]));
            lemma_escape_json_push(s@.subrange(0, i as int), s@[i as int]);
            assert(out@ =~= escape_json(s@.subrange(0, i as int)) + escaped_char(s@[i as int]));
        }
        i = i + 1;
    }
    proof {
        assert(s@.subrange(0, len as int) =~= s@);
    }
    out
}

} // verus!
