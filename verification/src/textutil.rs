//! Small verified text helpers: prefix tests and stripping, ASCII
//! capitalisation, and decimal rendering of counters.  Error formatting and
//! status messages are built from these.

use vstd::prelude::*;

verus! {

/// `p` is a prefix of `s`.
pub open spec fn spec_starts_with(s: Seq<char>, p: Seq<char>) -> bool {
    p.len() <= s.len() && s.subrange(0, p.len() as int) == p
}

/// `s` with every leading repetition of `p` removed, the way
/// `str::trim_start_matches` strips a pattern.
pub open spec fn spec_trim_prefix(s: Seq<char>, p: Seq<char>) -> Seq<char>
    decreases s.len(),
{
    if p.len() > 0 && spec_starts_with(s, p) {
        spec_trim_prefix(s.skip(p.len() as int), p)
    } else {
        s
    }
}

/// The uppercase form of an ASCII lowercase letter.
pub open spec fn spec_ascii_upper(c: char) -> char
    recommends
        'a' <= c <= 'z',
{
    (((c as u8) - 32) as u8) as char
}

/// `s` with its first character capitalised when it is an ASCII lowercase
/// letter, and unchanged otherwise.
pub open spec fn spec_capitalize(s: Seq<char>) -> Seq<char> {
    if s.len() > 0 && 'a' <= s[0] <= 'z' {
        seq![spec_ascii_upper(s[0])] + s.skip(1)
    } else {
        s
    }
}

pub fn str_starts_with(s: &str, p: &str) -> (r: bool)
    ensures
        r == spec_starts_with(s@, p@),
{
    let n: usize = p.unicode_len();
    if n > s.unicode_len() {
        return false;
    }
    let mut i: usize = 0;
    while i < n
        invariant
            0 <= i <= n,
            n == p@.len(),
            n <= s@.len(),
            forall|j: int| 0 <= j < i ==> s@[j] == p@[j],
        decreases n - i,
    {
        if s.get_char(i) != p.get_char(i) {
            proof {
                assert(s@.subrange(0, p@.len() as int)[i as int] != p@[i as int]);
            }
            return false;
        }
        i += 1;
    }
    proof {
        assert(s@.subrange(0, p@.len() as int) =~= p@);
    }
    true
}

/// Strips every leading repetition of `p` from `s`.
pub fn str_trim_prefix<'a>(s: &'a str, p: &str) -> (r: &'a str)
    requires
        p@.len() > 0,
    ensures
        r@ == spec_trim_prefix(s@, p@),
{
    let plen: usize = p.unicode_len();
    let mut cur: &str = s;
    while str_starts_with(cur, p)
        invariant
            p@.len() == plen,
            plen > 0,
            spec_trim_prefix(cur@, p@) == spec_trim_prefix(s@, p@),
        decreases cur@.len(),
    {
        let rest = cur.substring_char(plen, cur.unicode_len());
        proof {
            assert(rest@ =~= cur@.skip(plen as int));
        }
        cur = rest;
    }
    cur
}

/// `s` with every occurrence of `p` removed, scanning left to right the way
/// `str::replace` does with an empty replacement.
pub open spec fn spec_remove_all(s: Seq<char>, p: Seq<char>) -> Seq<char>
    recommends
        p.len() > 0,
    decreases s.len(),
{
    if s.len() == 0 {
        s
    } else if p.len() > 0 && spec_starts_with(s, p) {
        spec_remove_all(s.skip(p.len() as int), p)
    } else {
        seq![s[0]] + spec_remove_all(s.skip(1), p)
    }
}

/// Removes every occurrence of `p` from `s`, scanning left to right.
pub fn str_remove_all(s: &str, p: &str) -> (r: String)
    requires
        p@.len() > 0,
    ensures
        r@ == spec_remove_all(s@, p@),
{
    let n: usize = s.unicode_len();
    let plen: usize = p.unicode_len();
    let mut r = String::new();
    let mut i: usize = 0;
    proof {
        assert(s@.skip(0) =~= s@);
        assert(r@ + spec_remove_all(s@, p@) =~= spec_remove_all(s@, p@));
    }
    while i < n
        invariant
            0 <= i <= n,
            n == s@.len(),
            plen == p@.len(),
            plen > 0,
            spec_remove_all(s@, p@) == r@ + spec_remove_all(s@.skip(i as int), p@),
        decreases n - i,
    {
        let rest = s.substring_char(i, n);
        proof {
            assert(rest@ =~= s@.skip(i as int));
        }
        if str_starts_with(rest, p) {
            proof {
                let tail = s@.skip(i as int);
                assert(spec_remove_all(tail, p@) == spec_remove_all(
                    tail.skip(plen as int),
                    p@,
                ));
                assert(tail.skip(plen as int) =~= s@.skip(i + plen));
            }
            i += plen;
        } else {
            push_char(&mut r, s.get_char(i));
            proof {
                let tail = s@.skip(i as int);
                assert(tail.len() > 0);
                assert(tail[0] == s@[i as int]);
                assert(spec_remove_all(tail, p@) == seq![tail[0]] + spec_remove_all(
                    tail.skip(1),
                    p@,
                ));
                assert(tail.skip(1) =~= s@.skip(i + 1));
                assert(spec_remove_all(s@, p@) =~= r@ + spec_remove_all(s@.skip(i + 1), p@));
            }
            i += 1;
        }
    }
    proof {
        assert(s@.skip(n as int) =~= Seq::<char>::empty());
        assert(spec_remove_all(s@, p@) =~= r@);
    }
    r
}

/// Relies on `String::push`: appends exactly the given character.
#[verifier::external_body]
pub(crate) fn push_char(s: &mut String, c: char)
    ensures
        final(s)@ == old(s)@.push(c),
{
    s.push(c);
}

/// Capitalises the first character of `s` when it is an ASCII lowercase
/// letter; other first characters are kept as they are.
pub fn capitalize_first(s: &str) -> (r: String)
    ensures
        r@ == spec_capitalize(s@),
{
    if s.unicode_len() == 0 {
        return String::new();
    }
    let c = s.get_char(0);
    if 'a' <= c && c <= 'z' {
        let up = (((c as u32) - 32) as u8) as char;
        let mut r = String::new();
        push_char(&mut r, up);
        let rest = s.substring_char(1, s.unicode_len());
        r.append(rest);
        proof {
            assert(r@ =~= seq![spec_ascii_upper(s@[0])] + s@.skip(1));
        }
        r
    } else {
        s.to_owned()
    }
}

/// The character of a single decimal digit.
pub open spec fn spec_digit_char(d: int) -> char
    recommends
        0 <= d <= 9,
{
    ((d + 48) as u8) as char
}

/// The decimal rendering of a natural number, most significant digit first.
pub open spec fn spec_decimal(n: nat) -> Seq<char>
    decreases n,
{
    if n < 10 {
        seq![spec_digit_char(n as int)]
    } else {
        spec_decimal(n / 10) + seq![spec_digit_char((n % 10) as int)]
    }
}

/// Renders `n` in decimal notation.
pub fn u32_to_decimal(n: u32) -> (r: String)
    ensures
        r@ == spec_decimal(n as nat),
    decreases n,
{
    let d: u32 = n % 10;
    let c: char = ((d + 48) as u8) as char;
    if n < 10 {
        let mut r = String::new();
        push_char(&mut r, c);
        proof {
            assert(r@ =~= seq![spec_digit_char(n as int)]);
        }
        r
    } else {
        let mut r = u32_to_decimal(n / 10);
        push_char(&mut r, c);
        proof {
            assert(r@ =~= spec_decimal((n / 10) as nat) + seq![spec_digit_char((n % 10) as int)]);
        }
        r
    }
}

} // verus!
