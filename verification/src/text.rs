//! Character-level string primitives: equality, prefix and suffix tests,
//! whitespace tokenization, and decimal rendering of integers.
use vstd::prelude::*;

verus! {

/// Characters treated as separators when an argument string is split into
/// tokens: the characters with the Unicode `White_Space` property, the set
/// `str::split_whitespace` splits on.
pub open spec fn spec_is_space(c: char) -> bool {
    let u = c as u32;
    (9 <= u && u <= 13) || u == 32 || u == 0x85 || u == 0xa0 || u == 0x1680 || (0x2000 <= u && u
        <= 0x200a) || u == 0x2028 || u == 0x2029 || u == 0x202f || u == 0x205f || u == 0x3000
}

pub fn is_space(c: char) -> (r: bool)
    ensures
        r == spec_is_space(c),
{
    let u = c as u32;
    (9 <= u && u <= 13) || u == 32 || u == 0x85 || u == 0xa0 || u == 0x1680 || (0x2000 <= u && u
        <= 0x200a) || u == 0x2028 || u == 0x2029 || u == 0x202f || u == 0x205f || u == 0x3000
}

/// Relies on `String::from` for `char`: the returned string holds exactly the
/// one character given.
#[verifier::external_body]
pub fn char_to_string(c: char) -> (r: String)
    ensures
        r@ == seq![c],
{
    String::from(c)
}

pub fn str_eq(a: &str, b: &str) -> (r: bool)
    ensures
        r == (a@ == b@),
{
    let an = a.unicode_len();
    let bn = b.unicode_len();
    if an != bn {
        return false;
    }
    let mut i: usize = 0;
    while i < an
        invariant
            an == a@.len(),
            an == b@.len(),
            i <= an,
            forall|j: int| 0 <= j < i ==> a@[j] == b@[j],
        decreases an - i,
    {
        if a.get_char(i) != b.get_char(i) {
            return false;
        }
        i += 1;
    }
    proof {
        assert(a@ =~= b@);
    }
    true
}

pub fn str_starts_with(s: &str, p: &str) -> (r: bool)
    ensures
        r == p@.is_prefix_of(s@),
{
    let sn = s.unicode_len();
    let pn = p.unicode_len();
    if pn > sn {
        return false;
    }
    let mut i: usize = 0;
    while i < pn
        invariant
            sn == s@.len(),
            pn == p@.len(),
            pn <= sn,
            i <= pn,
            forall|j: int| 0 <= j < i ==> s@[j] == p@[j],
        decreases pn - i,
    {
        if s.get_char(i) != p.get_char(i) {
            proof {
                assert(!p@.is_prefix_of(s@)) by {
                    if p@.is_prefix_of(s@) {
                        assert(p@[i as int] == s@.subrange(0, p@.len() as int)[i as int]);
                    }
                }
            }
            return false;
        }
        i += 1;
    }
    proof {
        assert(p@ =~= s@.subrange(0, p@.len() as int));
    }
    true
}

pub fn str_ends_with(s: &str, p: &str) -> (r: bool)
    ensures
        r == p@.is_suffix_of(s@),
{
    let sn = s.unicode_len();
    let pn = p.unicode_len();
    if pn > sn {
        return false;
    }
    let off = sn - pn;
    let mut i: usize = 0;
    while i < pn
        invariant
            sn == s@.len(),
            pn == p@.len(),
            pn <= sn,
            off == sn - pn,
            i <= pn,
            forall|j: int| 0 <= j < i ==> s@[off + j] == p@[j],
        decreases pn - i,
    {
        if s.get_char(off + i) != p.get_char(i) {
            proof {
                assert(!p@.is_suffix_of(s@)) by {
                    if p@.is_suffix_of(s@) {
                        assert(p@[i as int] == s@.subrange(
                            s@.len() - p@.len(),
                            s@.len() as int,
                        )[i as int]);
                    }
                }
            }
            return false;
        }
        i += 1;
    }
    proof {
        assert(p@ =~= s@.subrange(s@.len() - p@.len(), s@.len() as int));
    }
    true
}

/// The sequences of characters of the strings in `v`, in order.
pub open spec fn strs_view(v: Seq<String>) -> Seq<Seq<char>> {
    v.map_values(|t: String| t@)
}

/// Whitespace splitting with an accumulator: `cur` is the token being read
/// when the scan stands just before `s`.
pub open spec fn spec_split_acc(s: Seq<char>, cur: Seq<char>) -> Seq<Seq<char>>
    decreases s.len(),
{
    if s.len() == 0 {
        if cur.len() == 0 {
            seq![]
        } else {
            seq![cur]
        }
    } else if spec_is_space(s[0]) {
        if cur.len() == 0 {
            spec_split_acc(s.skip(1), seq![])
        } else {
            seq![cur] + spec_split_acc(s.skip(1), seq![])
        }
    } else {
        spec_split_acc(s.skip(1), cur.push(s[0]))
    }
}

/// The maximal whitespace-free tokens of `s`, in order. Tokens with embedded
/// whitespace cannot be expressed; there is no quoting.
pub open spec fn spec_split_ws(s: Seq<char>) -> Seq<Seq<char>> {
    spec_split_acc(s, seq![])
}

/// Splits `s` at Unicode white space into its maximal non-whitespace
/// tokens.
pub fn split_ws(s: &str) -> (r: Vec<String>)
    ensures
        strs_view(r@) == spec_split_ws(s@),
{
    let n = s.unicode_len();
    let mut out: Vec<String> = Vec::new();
    let mut cur = String::new();
    let mut i: usize = 0;
    proof {
        assert(s@.skip(0) =~= s@);
        assert(strs_view(out@) + spec_split_acc(s@, cur@) =~~= spec_split_acc(s@, cur@));
    }
    while i < n
        invariant
            n == s@.len(),
            i <= n,
            spec_split_ws(s@) == strs_view(out@) + spec_split_acc(s@.skip(i as int), cur@),
        decreases n - i,
    {
        let ghost prev_rest = s@.skip(i as int);
        let ghost prev_cur = cur@;
        let ghost prev_out = out@;
        let c = s.get_char(i);
        proof {
            assert(prev_rest[0] == s@[i as int]);
            assert(prev_rest.skip(1) =~= s@.skip(i as int + 1));
        }
        if is_space(c) {
            if !cur.as_str().is_empty() {
                let ghost curv = cur@;
                out.push(cur);
                cur = String::new();
                proof {
                    assert(spec_split_acc(prev_rest, prev_cur) == seq![prev_cur]
                        + spec_split_acc(prev_rest.skip(1), seq![]));
                    assert(strs_view(out@) =~~= strs_view(prev_out).push(curv));
                    assert(strs_view(prev_out) + (seq![prev_cur] + spec_split_acc(
                        prev_rest.skip(1),
                        seq![],
                    )) =~~= strs_view(out@) + spec_split_acc(prev_rest.skip(1), seq![]));
                    assert(cur@ =~= Seq::<char>::empty());
                    assert(spec_split_acc(s@.skip(i as int + 1), seq![]) == spec_split_acc(
                        s@.skip(i as int + 1),
                        cur@,
                    ));
                }
            } else {
                proof {
                    assert(prev_cur =~= seq![]);
                    assert(spec_split_acc(prev_rest, prev_cur) == spec_split_acc(
                        prev_rest.skip(1),
                        seq![],
                    ));
                    assert(spec_split_acc(s@.skip(i as int + 1), seq![]) == spec_split_acc(
                        s@.skip(i as int + 1),
                        cur@,
                    ));
                }
            }
        } else {
            cur.append(char_to_string(c).as_str());
            proof {
                assert(cur@ =~= prev_cur.push(c));
                assert(spec_split_acc(prev_rest, prev_cur) == spec_split_acc(
                    prev_rest.skip(1),
                    prev_cur.push(prev_rest[0]),
                ));
            }
        }
        i += 1;
    }
    proof {
        assert(s@.skip(n as int) =~= Seq::<char>::empty());
    }
    if !cur.as_str().is_empty() {
        let ghost prev_out = out@;
        let ghost curv = cur@;
        proof {
            assert(spec_split_acc(Seq::<char>::empty(), curv) == seq![curv]);
        }
        out.push(cur);
        proof {
            assert(strs_view(out@) =~~= strs_view(prev_out).push(curv));
            assert(strs_view(out@) =~~= strs_view(prev_out) + seq![curv]);
        }
    } else {
        proof {
            assert(cur@ =~= seq![]);
            assert(spec_split_acc(Seq::<char>::empty(), cur@) == Seq::<Seq<char>>::empty());
            assert(strs_view(out@) + Seq::<Seq<char>>::empty() =~~= strs_view(out@));
        }
    }
    out
}

/// The decimal digits of `n`, most significant first.
pub open spec fn spec_dec_nat(n: nat) -> Seq<char>
    decreases n,
{
    if n < 10 {
        seq![spec_digit(n)]
    } else {
        spec_dec_nat(n / 10) + seq![spec_digit(n % 10)]
    }
}

/// The decimal rendering of `n`, with a leading minus sign when negative.
pub open spec fn spec_dec_int(n: int) -> Seq<char> {
    if n < 0 {
        seq!['-'] + spec_dec_nat((-n) as nat)
    } else {
        spec_dec_nat(n as nat)
    }
}

pub open spec fn spec_digit(d: nat) -> char {
    if d == 0 {
        '0'
    } else if d == 1 {
        '1'
    } else if d == 2 {
        '2'
    } else if d == 3 {
        '3'
    } else if d == 4 {
        '4'
    } else if d == 5 {
        '5'
    } else if d == 6 {
        '6'
    } else if d == 7 {
        '7'
    } else if d == 8 {
        '8'
    } else {
        '9'
    }
}

fn digit_char(d: u64) -> (c: char)
    requires
        d < 10,
    ensures
        c == spec_digit(d as nat),
{
    if d == 0 {
        '0'
    } else if d == 1 {
        '1'
    } else if d == 2 {
        '2'
    } else if d == 3 {
        '3'
    } else if d == 4 {
        '4'
    } else if d == 5 {
        '5'
    } else if d == 6 {
        '6'
    } else if d == 7 {
        '7'
    } else if d == 8 {
        '8'
    } else {
        '9'
    }
}

fn dec_u64(n: u64) -> (r: String)
    ensures
        r@ == spec_dec_nat(n as nat),
    decreases n,
{
    if n < 10 {
        char_to_string(digit_char(n))
    } else {
        let mut s = dec_u64(n / 10);
        s.append(char_to_string(digit_char(n % 10)).as_str());
        s
    }
}

/// Renders `n` in decimal, as `spec_dec_int` describes.
pub fn dec_i64(n: i64) -> (r: String)
    ensures
        r@ == spec_dec_int(n as int),
{
    if n < 0 {
        let m: u64 = if n == i64::MIN {
            9223372036854775808u64
        } else {
            (-n) as u64
        };
        let mut s = char_to_string('-');
        s.append(dec_u64(m).as_str());
        s
    } else {
        dec_u64(n as u64)
    }
}

/// The characters of `s` from position `from` (inclusive) to the end, as an
/// owned string.
pub fn str_suffix_from(s: &str, from: usize) -> (r: String)
    requires
        from <= s@.len(),
    ensures
        r@ == s@.skip(from as int),
{
    let n = s.unicode_len();
    let part = s.substring_char(from, n);
    part.to_owned()
}

} // verus!
