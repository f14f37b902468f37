//! Verified rendering of the wire format used for tool results.
//!
//! Every tool execution reports back through a result envelope that is
//! serialized as a JSON object. The functions here render strings, numbers
//! and booleans exactly as the conventional serializers do: double quotes,
//! backslashes and control characters are escaped, everything else is copied
//! through unchanged.

use vstd::prelude::*;

use crate::text::dec_rep;

verus! {

/// The lowercase hexadecimal digit for a value below sixteen.
pub open spec fn hex_char(d: int) -> char {
    if d < 10 {
        crate::text::digit_char(d)
    } else if d == 10 {
        'a'
    } else if d == 11 {
        'b'
    } else if d == 12 {
        'c'
    } else if d == 13 {
        'd'
    } else if d == 14 {
        'e'
    } else {
        'f'
    }
}

/// How a single character appears inside a JSON string literal.
pub open spec fn json_escaped_char(c: char) -> Seq<char> {
    if c == '"' {
        seq!['\\', '"']
    } else if c == '\\' {
        seq!['\\', '\\']
    } else if c == '\u{8}' {
        seq!['\\', 'b']
    } else if c == '\u{9}' {
        seq!['\\', 't']
    } else if c == '\u{A}' {
        seq!['\\', 'n']
    } else if c == '\u{C}' {
        seq!['\\', 'f']
    } else if c == '\u{D}' {
        seq!['\\', 'r']
    } else if (c as u32) < 0x20 {
        seq!['\\', 'u', '0', '0', hex_char((c as u32 / 16) as int), hex_char(
            (c as u32 % 16) as int,
        )]
    } else {
        seq![c]
    }
}

/// A character that is copied into a JSON string literal unchanged.
pub open spec fn json_plain_char(c: char) -> bool {
    c != '"' && c != '\\' && (c as u32) >= 0x20
}

/// The body of a JSON string literal for the given text.
pub open spec fn json_escaped(s: Seq<char>) -> Seq<char>
    decreases s.len(),
{
    if s.len() == 0 {
        Seq::empty()
    } else {
        json_escaped(s.drop_last()) + json_escaped_char(s.last())
    }
}

/// A JSON string literal, quotes included.
pub open spec fn json_string_of(s: Seq<char>) -> Seq<char> {
    seq!['"'] + json_escaped(s) + seq!['"']
}

/// Extending the text by one character extends its escaped form by that
/// character's escape.
proof fn lemma_json_escaped_snoc(s: Seq<char>, i: int)
    requires
        0 <= i < s.len(),
    ensures
        json_escaped(s.take(i + 1)) == json_escaped(s.take(i)) + json_escaped_char(s[i]),
{
    let t = s.take(i + 1);
    assert(t.drop_last() =~= s.take(i));
    assert(t.last() == s[i]);
}

/// A run of plain characters is copied into the escaped form verbatim.
proof fn lemma_json_escaped_plain_run(s: Seq<char>, a: int, b: int)
    requires
        0 <= a <= b <= s.len(),
        forall|i: int| a <= i < b ==> json_plain_char(s[i]),
    ensures
        json_escaped(s.take(b)) == json_escaped(s.take(a)) + s.subrange(a, b),
    decreases b - a,
{
    if a == b {
        assert(json_escaped(s.take(b)) =~= json_escaped(s.take(a)) + s.subrange(a, b));
    } else {
        lemma_json_escaped_plain_run(s, a, b - 1);
        lemma_json_escaped_snoc(s, b - 1);
        assert(json_plain_char(s[b - 1]));
        assert(json_escaped_char(s[b - 1]) =~= seq![s[b - 1]]);
        assert(json_escaped(s.take(a)) + s.subrange(a, b - 1) + seq![s[b - 1]] =~= json_escaped(
            s.take(a),
        ) + s.subrange(a, b));
    }
}

/// A one-character string for a lowercase hexadecimal digit.
fn hex_str(d: u32) -> (r: &'static str)
    requires
        d < 16,
    ensures
        r@ == seq![hex_char(d as int)],
{
    proof {
        reveal_strlit("0");
        reveal_strlit("1");
        reveal_strlit("2");
        reveal_strlit("3");
        reveal_strlit("4");
        reveal_strlit("5");
        reveal_strlit("6");
        reveal_strlit("7");
        reveal_strlit("8");
        reveal_strlit("9");
        reveal_strlit("a");
        reveal_strlit("b");
        reveal_strlit("c");
        reveal_strlit("d");
        reveal_strlit("e");
        reveal_strlit("f");
    }
    let r = match d {
        0 => "0",
        1 => "1",
        2 => "2",
        3 => "3",
        4 => "4",
        5 => "5",
        6 => "6",
        7 => "7",
        8 => "8",
        9 => "9",
        10 => "a",
        11 => "b",
        12 => "c",
        13 => "d",
        14 => "e",
        _ => "f",
    };
    assert(r@ =~= seq![hex_char(d as int)]);
    r
}

/// Appends the escape sequence of one special character.
fn push_escape(out: &mut String, c: char)
    requires
        !json_plain_char(c),
    ensures
        final(out)@ == old(out)@ + json_escaped_char(c),
{
    proof {
        reveal_strlit("\\\"");
        reveal_strlit("\\\\");
        reveal_strlit("\\b");
        reveal_strlit("\\t");
        reveal_strlit("\\n");
        reveal_strlit("\\f");
        reveal_strlit("\\r");
        reveal_strlit("\\u00");
    }
    if c == '"' {
        out.append("\\\"");
        assert(final(out)@ =~= old(out)@ + json_escaped_char(c));
    } else if c == '\\' {
        out.append("\\\\");
        assert(final(out)@ =~= old(out)@ + json_escaped_char(c));
    } else if c == '\u{8}' {
        out.append("\\b");
        assert(final(out)@ =~= old(out)@ + json_escaped_char(c));
    } else if c == '\u{9}' {
        out.append("\\t");
        assert(final(out)@ =~= old(out)@ + json_escaped_char(c));
    } else if c == '\u{A}' {
        out.append("\\n");
        assert(final(out)@ =~= old(out)@ + json_escaped_char(c));
    } else if c == '\u{C}' {
        out.append("\\f");
        assert(final(out)@ =~= old(out)@ + json_escaped_char(c));
    } else if c == '\u{D}' {
        out.append("\\r");
        assert(final(out)@ =~= old(out)@ + json_escaped_char(c));
    } else {
        let code = c as u32;
        out.append("\\u00");
        out.append(hex_str(code / 16));
        out.append(hex_str(code % 16));
        assert(final(out)@ =~= old(out)@ + json_escaped_char(c));
    }
}

/// Renders the body of a JSON string literal for the given text.
fn append_escaped(out: &mut String, s: &str)
    ensures
        final(out)@ == old(out)@ + json_escaped(s@),
{
    let v = crate::text::chars_of(s);
    let len = v.len();
    let mut run: usize = 0;
    let mut i: usize = 0;
    while i < len
        invariant
            len == v@.len(),
            v@ == s@,
            run <= i <= len,
            out@ == old(out)@ + json_escaped(s@.take(run as int)),
            forall|j: int| run <= j < i ==> json_plain_char(s@[j]),
        decreases len - i,
    {
        let c = v[i];
        if c == '"' || c == '\\' || (c as u32) < 0x20 {
            let piece = s.substring_char(run, i);
            out.append(piece);
            proof {
                lemma_json_escaped_plain_run(s@, run as int, i as int);
            }
            push_escape(out, c);
            proof {
                lemma_json_escaped_snoc(s@, i as int);
            }
            run = i + 1;
        }
        i = i + 1;
    }
    let piece = s.substring_char(run, len);
    out.append(piece);
    proof {
        lemma_json_escaped_plain_run(s@, run as int, len as int);
        assert(s@.take(len as int) =~= s@);
    }
}

/// Renders a JSON string literal, quotes included.
pub fn json_string(s: &str) -> (r: String)
    ensures
        r@ == json_string_of(s@),
{
    proof {
        reveal_strlit("\"");
    }
    let mut out = "\"".to_owned();
    append_escaped(&mut out, s);
    out.append("\"");
    assert(out@ =~= json_string_of(s@));
    out
}

/// Renders a number as a JSON value.
pub fn json_number(n: u64) -> (r: String)
    ensures
        r@ == dec_rep(n as int),
{
    crate::text::u64_to_string(n)
}

} // verus!
