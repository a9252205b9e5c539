//! Rendering of one stream event as JSON text.
//!
//! Every emission is the object `{"level": <label>}`. The label is embedded
//! as a JSON string: quote, backslash and control characters are escaped, so
//! the output is one well-formed JSON object for any label.

use vstd::prelude::*;

verus! {

/// The lower-case hexadecimal digit for `d`.
pub open spec fn hex_digit(d: int) -> char {
    if d == 0 {
        '0'
    } else if d == 1 {
        '1'
    } else if d == 2 {
        '2'
    } else if d == 3 {
        '3'
    } else if d == 4 {
        '4'
    } else if d == 5 {
        '5'
    } else if d == 6 {
        '6'
    } else if d == 7 {
        '7'
    } else if d == 8 {
        '8'
    } else if d == 9 {
        '9'
    } else if d == 10 {
        'a'
    } else if d == 11 {
        'b'
    } else if d == 12 {
        'c'
    } else if d == 13 {
        'd'
    } else if d == 14 {
        'e'
    } else {
        'f'
    }
}

/// How one character of a label appears inside a JSON string: the named
/// short escapes, `\u00..` for the remaining control characters, and the
/// character itself otherwise.
pub open spec fn esc_char(c: char) -> Seq<char> {
    if c == '"' {
        seq!['\\', '"']
    } else if c == '\\' {
        seq!['\\', '\\']
    } else if c == '\n' {
        seq!['\\', 'n']
    } else if c == '\r' {
        seq!['\\', 'r']
    } else if c == '\t' {
        seq!['\\', 't']
    } else if (c as u32) < 32 {
        seq!['\\', 'u', '0', '0', hex_digit((c as u32) as int / 16), hex_digit((c as u32) as int % 16)]
    } else {
        seq![c]
    }
}

/// A label escaped for embedding in a JSON string, character by character.
pub open spec fn json_escape(s: Seq<char>) -> Seq<char>
    decreases s.len(),
{
    if s.len() == 0 {
        Seq::empty()
    } else {
        esc_char(s[0]) + json_escape(s.skip(1))
    }
}

/// The full event payload for a label: `{"level":"<escaped label>"}`.
pub open spec fn payload_of(label: Seq<char>) -> Seq<char> {
    "{\"level\":\""@ + json_escape(label) + "\"}"@
}

/// Escaping distributes over snoc: escaping `s.push(c)` is escaping `s`
/// followed by the escape of `c`.
proof fn lemma_escape_push(s: Seq<char>, c: char)
    ensures
        json_escape(s.push(c)) == json_escape(s) + esc_char(c),
    decreases s.len(),
{
    reveal_with_fuel(json_escape, 3);
    if s.len() == 0 {
        assert(s.push(c)[0] == c);
        assert(s.push(c).skip(1) =~= Seq::<char>::empty());
        assert(json_escape(Seq::<char>::empty()) =~= Seq::<char>::empty());
        assert(json_escape(s.push(c)) =~= json_escape(s) + esc_char(c));
    } else {
        assert(s.push(c).skip(1) =~= s.skip(1).push(c));
        lemma_escape_push(s.skip(1), c);
        assert(s.push(c)[0] == s[0]);
        assert(json_escape(s.push(c)) =~= json_escape(s) + esc_char(c));
    }
}

/// Relies on `String::from` for `char`: the string holding exactly `c`.
#[verifier::external_body]
fn char_str(c: char) -> (s: String)
    ensures
        s@ == seq![c],
{
    String::from(c)
}

/// Appends the JSON escape of the single character `c` to `out`.
fn push_escaped_char(out: &mut String, c: char)
    ensures
        final(out)@ == old(out)@ + esc_char(c),
{
    if c == '"' {
        out.append("\\\"");
        proof {
            reveal_strlit("\\\"");
            assert(("\\\"")@ =~= esc_char(c));
        }
    } else if c == '\\' {
        out.append("\\\\");
        proof {
            reveal_strlit("\\\\");
            assert(("\\\\")@ =~= esc_char(c));
        }
    } else if c == '\n' {
        out.append("\\n");
        proof {
            reveal_strlit("\\n");
            assert(("\\n")@ =~= esc_char(c));
        }
    } else if c == '\r' {
        out.append("\\r");
        proof {
            reveal_strlit("\\r");
            assert(("\\r")@ =~= esc_char(c));
        }
    } else if c == '\t' {
        out.append("\\t");
        proof {
            reveal_strlit("\\t");
            assert(("\\t")@ =~= esc_char(c));
        }
    } else if (c as u32) < 32 {
        let v: u32 = c as u32;
        out.append("\\u00");
        let hi = hex_digit_char(v / 16);
        let s_hi = char_str(hi);
        out.append(s_hi.as_str());
        let lo = hex_digit_char(v % 16);
        let s_lo = char_str(lo);
        out.append(s_lo.as_str());
        proof {
            reveal_strlit("\\u00");
            assert(("\\u00")@ + seq![hi] + seq![lo] =~= esc_char(c));
        }
    } else {
        let s = char_str(c);
        out.append(s.as_str());
        proof {
            assert(seq![c] =~= esc_char(c));
        }
    }
}

/// The lower-case hexadecimal digit character for `d`.
fn hex_digit_char(d: u32) -> (c: char)
    requires
        d < 16,
    ensures
        c == hex_digit(d as int),
{
    if d == 0 {
        '0'
    } else if d == 1 {
        '1'
    } else if d == 2 {
        '2'
    } else if d == 3 {
        '3'
    } else if d == 4 {
        '4'
    } else if d == 5 {
        '5'
    } else if d == 6 {
        '6'
    } else if d == 7 {
        '7'
    } else if d == 8 {
        '8'
    } else if d == 9 {
        '9'
    } else if d == 10 {
        'a'
    } else if d == 11 {
        'b'
    } else if d == 12 {
        'c'
    } else if d == 13 {
        'd'
    } else if d == 14 {
        'e'
    } else {
        'f'
    }
}

/// Appends the JSON escape of every character of `label` to `out`, in order.
fn append_escaped(out: &mut String, label: &str)
    ensures
        final(out)@ == old(out)@ + json_escape(label@),
{
    let len = label.unicode_len();
    let mut i: usize = 0;
    while i < len
        invariant
            i <= len,
            len == label@.len(),
            out@ == old(out)@ + json_escape(label@.take(i as int)),
        decreases len - i,
    {
        let c = label.get_char(i);
        push_escaped_char(out, c);
        proof {
            lemma_escape_push(label@.take(i as int), c);
            assert(label@.take(i as int).push(label@[i as int]) =~= label@.take(i as int + 1));
        }
        i = i + 1;
    }
    proof {
        assert(label@.take(len as int) =~= label@);
    }
}

/// Renders the event payload `{"level":"<escaped label>"}` for one emission.
pub fn render_event(label: &str) -> (ev: String)
    ensures
        ev@ == payload_of(label@),
{
    let mut out = String::from_str("{\"level\":\"");
    append_escaped(&mut out, label);
    out.append("\"}");
    out
}

} // verus!
