//! Rendering of JSON string literals: the escaping rule, stated per
//! character, and an implementation proved against it.
use vstd::prelude::*;
use crate::text::char_to_string;

verus! {

pub open spec fn spec_hex_digit(d: nat) -> char {
    if d == 0 {
        '0'
    } else if d == 1 {
        '1'
    } else if d == 2 {
        '2'
    } else if d == 3 {
        '3'
    } else if d == 4 {
        '4'
    } else if d == 5 {
        '5'
    } else if d == 6 {
        '6'
    } else if d == 7 {
        '7'
    } else if d == 8 {
        '8'
    } else if d == 9 {
        '9'
    } else if d == 10 {
        'a'
    } else if d == 11 {
        'b'
    } else if d == 12 {
        'c'
    } else if d == 13 {
        'd'
    } else if d == 14 {
        'e'
    } else {
        'f'
    }
}

/// How one character appears inside a JSON string literal: quotes and
/// backslashes get a backslash, the common control characters their short
/// escapes, the remaining control characters a `\u00..` escape, and every
/// other character stands for itself.
pub open spec fn spec_escape_char(c: char) -> Seq<char> {
    if c == '"' {
        "\\\""@
    } else if c == '\\' {
        "\\\\"@
    } else if c == '\n' {
        "\\n"@
    } else if c == '\r' {
        "\\r"@
    } else if c == '\t' {
        "\\t"@
    } else if (c as u32) < 32 {
        "\\u00"@ + seq![
            spec_hex_digit(((c as u32) / 16) as nat),
            spec_hex_digit(((c as u32) % 16) as nat),
        ]
    } else {
        seq![c]
    }
}

pub open spec fn spec_escape(s: Seq<char>) -> Seq<char>
    decreases s.len(),
{
    if s.len() == 0 {
        Seq::empty()
    } else {
        spec_escape_char(s[0]) + spec_escape(s.skip(1))
    }
}

/// A JSON string literal holding `s`.
pub open spec fn spec_json_str(s: Seq<char>) -> Seq<char> {
    "\""@ + spec_escape(s) + "\""@
}

proof fn lemma_escape_snoc(a: Seq<char>, c: char)
    ensures
        spec_escape(a + seq![c]) == spec_escape(a) + spec_escape_char(c),
    decreases a.len(),
{
    if a.len() == 0 {
        assert(a + seq![c] =~= seq![c]);
        assert(seq![c].skip(1) =~= Seq::<char>::empty());
        assert(spec_escape(Seq::<char>::empty()) == Seq::<char>::empty());
        assert(spec_escape(seq![c]) == spec_escape_char(c) + Seq::<char>::empty());
        assert(spec_escape_char(c) + Seq::<char>::empty() =~= spec_escape_char(c));
        assert(spec_escape(a) + spec_escape_char(c) =~= spec_escape_char(c));
    } else {
        assert((a + seq![c])[0] == a[0]);
        assert((a + seq![c]).skip(1) =~= a.skip(1) + seq![c]);
        lemma_escape_snoc(a.skip(1), c);
        assert(spec_escape_char(a[0]) + (spec_escape(a.skip(1)) + spec_escape_char(c))
            =~= (spec_escape_char(a[0]) + spec_escape(a.skip(1))) + spec_escape_char(c));
    }
}

fn hex_char(d: u32) -> (c: char)
    requires
        d < 16,
    ensures
        c == spec_hex_digit(d as nat),
{
    if d == 0 {
        '0'
    } else if d == 1 {
        '1'
    } else if d == 2 {
        '2'
    } else if d == 3 {
        '3'
    } else if d == 4 {
        '4'
    } else if d == 5 {
        '5'
    } else if d == 6 {
        '6'
    } else if d == 7 {
        '7'
    } else if d == 8 {
        '8'
    } else if d == 9 {
        '9'
    } else if d == 10 {
        'a'
    } else if d == 11 {
        'b'
    } else if d == 12 {
        'c'
    } else if d == 13 {
        'd'
    } else if d == 14 {
        'e'
    } else {
        'f'
    }
}

/// Escapes `s` for inclusion in a JSON string literal.
pub fn escape_str(s: &str) -> (r: String)
    ensures
        r@ == spec_escape(s@),
{
    let n = s.unicode_len();
    let mut out = String::new();
    let mut i: usize = 0;
    proof {
        assert(s@.take(0) =~= Seq::<char>::empty());
    }
    while i < n
        invariant
            n == s@.len(),
            i <= n,
            out@ == spec_escape(s@.take(i as int)),
        decreases n - i,
    {
        let c = s.get_char(i);
        let ghost prev_out = out@;
        if c == '"' {
            out.append("\\\"");
        } else if c == '\\' {
            out.append("\\\\");
        } else if c == '\n' {
            out.append("\\n");
        } else if c == '\r' {
            out.append("\\r");
        } else if c == '\t' {
            out.append("\\t");
        } else if (c as u32) < 32 {
            let code = c as u32;
            out.append("\\u00");
            out.append(char_to_string(hex_char(code / 16)).as_str());
            out.append(char_to_string(hex_char(code % 16)).as_str());
            proof {
                assert(out@ =~= prev_out + spec_escape_char(c));
            }
        } else {
            out.append(char_to_string(c).as_str());
        }
        proof {
            assert(out@ =~= prev_out + spec_escape_char(c));
            assert(s@.take(i as int + 1) =~= s@.take(i as int) + seq![s@[i as int]]);
            lemma_escape_snoc(s@.take(i as int), s@[i as int]);
        }
        i += 1;
    }
    proof {
        assert(s@.take(n as int) =~= s@);
    }
    out
}

/// Renders `s` as a JSON string literal, quotes included.
pub fn json_quote(s: &str) -> (r: String)
    ensures
        r@ == spec_json_str(s@),
{
    let mut out = String::new();
    out.append("\"");
    out.append(escape_str(s).as_str());
    out.append("\"");
    proof {
        assert(out@ =~= spec_json_str(s@));
    }
    out
}

} // verus!
