//! Small executable helpers on strings and numbers that the rest of the
//! library builds its formatting on.

use vstd::prelude::*;

verus! {

/// Relies on std's `String::push`: appends exactly one character at the end.
#[verifier::external_body]
pub fn push_char(s: &mut String, c: char)
    ensures
        final(s)@ == old(s)@.push(c),
{
    s.push(c);
}

/// The decimal digit character for a value below ten.
pub open spec fn digit_char(d: int) -> char {
    if d == 0 {
        '0'
    } else if d == 1 {
        '1'
    } else if d == 2 {
        '2'
    } else if d == 3 {
        '3'
    } else if d == 4 {
        '4'
    } else if d == 5 {
        '5'
    } else if d == 6 {
        '6'
    } else if d == 7 {
        '7'
    } else if d == 8 {
        '8'
    } else {
        '9'
    }
}

/// The decimal notation of `n`, without leading zeros (a single `'0'` for
/// zero itself).
pub open spec fn dec_chars(n: nat) -> Seq<char>
    decreases n,
{
    if n < 10 {
        seq![digit_char(n as int)]
    } else {
        dec_chars(n / 10) + seq![digit_char((n % 10) as int)]
    }
}

pub(crate) fn digit_char_of_u32(d: u32) -> (c: char)
    requires
        d < 10,
    ensures
        c == digit_char(d as int),
{
    if d == 0 {
        '0'
    } else if d == 1 {
        '1'
    } else if d == 2 {
        '2'
    } else if d == 3 {
        '3'
    } else if d == 4 {
        '4'
    } else if d == 5 {
        '5'
    } else if d == 6 {
        '6'
    } else if d == 7 {
        '7'
    } else if d == 8 {
        '8'
    } else {
        '9'
    }
}

fn digit_char_of(d: u64) -> (c: char)
    requires
        d < 10,
    ensures
        c == digit_char(d as int),
{
    if d == 0 {
        '0'
    } else if d == 1 {
        '1'
    } else if d == 2 {
        '2'
    } else if d == 3 {
        '3'
    } else if d == 4 {
        '4'
    } else if d == 5 {
        '5'
    } else if d == 6 {
        '6'
    } else if d == 7 {
        '7'
    } else if d == 8 {
        '8'
    } else {
        '9'
    }
}

/// Writes `n` in decimal, as the upstream paths expect numeric path segments.
pub fn u64_to_string(n: u64) -> (r: String)
    ensures
        r@ == dec_chars(n as nat),
{
    let mut digits: Vec<char> = Vec::new();
    let mut rest: u64 = n;
    let d0 = rest % 10;
    digits.push(digit_char_of(d0));
    rest = rest / 10;
    proof {
        assert(digits@.reverse() =~= seq![digit_char(d0 as int)]);
    }
    while rest > 0
        invariant
            rest > 0 ==> dec_chars(n as nat) == dec_chars(rest as nat) + digits@.reverse(),
            rest == 0 ==> dec_chars(n as nat) == digits@.reverse(),
        decreases rest,
    {
        let d = rest % 10;
        let ghost prev = rest;
        let ghost olddigits = digits@;
        proof {
            assert(olddigits.push(digit_char(d as int)).reverse() =~= seq![
                digit_char(d as int),
            ] + olddigits.reverse());
        }
        digits.push(digit_char_of(d));
        rest = rest / 10;
        proof {
            if rest > 0 {
                assert(dec_chars(prev as nat) == dec_chars(rest as nat) + seq![
                    digit_char(d as int),
                ]);
                assert(dec_chars(rest as nat) + (seq![digit_char(d as int)] + olddigits.reverse())
                    =~= (dec_chars(rest as nat) + seq![digit_char(d as int)])
                    + olddigits.reverse());
            } else {
                assert(dec_chars(prev as nat) == seq![digit_char(d as int)]);
            }
        }
    }
    let mut r = String::new();
    let mut i: usize = digits.len();
    while i > 0
        invariant
            i <= digits@.len(),
            r@ == digits@.reverse().subrange(0, digits@.len() - i),
        decreases i,
    {
        i = i - 1;
        let c = digits[i];
        push_char(&mut r, c);
        proof {
            assert(r@ =~= digits@.reverse().subrange(0, digits@.len() - i));
        }
    }
    proof {
        assert(r@ =~= digits@.reverse());
    }
    r
}

/// Numeric value of a digit sequence, most significant first.
pub open spec fn dec_val(s: Seq<char>) -> int
    decreases s.len(),
{
    if s.len() == 0 {
        0
    } else {
        dec_val(s.drop_last()) * 10 + (s.last() as int - '0' as int)
    }
}

/// The digits of an unsigned decimal notation: everything after an optional
/// leading plus sign.
pub open spec fn dec_digits_part(s: Seq<char>) -> Seq<char> {
    if s.len() > 0 && s[0] == '+' {
        s.drop_first()
    } else {
        s
    }
}

/// The unsigned decimal grammar: an optional plus sign, then at least one
/// digit, naming a value that fits a machine word.
pub open spec fn valid_u64_str(s: Seq<char>) -> bool {
    let d = dec_digits_part(s);
    &&& d.len() > 0
    &&& forall|k: int| 0 <= k < d.len() ==> crate::date::is_digit(d[k])
    &&& dec_val(d) <= u64::MAX
}

/// Parses an unsigned decimal notation, rejecting text that is not all
/// digits (after an optional plus sign) and values too large for a machine
/// word.
pub fn parse_u64(s: &str) -> (r: Option<u64>)
    ensures
        r is Some <==> valid_u64_str(s@),
        r matches Some(v) ==> v == dec_val(dec_digits_part(s@)),
{
    let n = s.unicode_len();
    if n == 0 {
        return None;
    }
    let start: usize = if s.get_char(0) == '+' {
        1
    } else {
        0
    };
    let ghost d = dec_digits_part(s@);
    proof {
        assert(d =~= s@.subrange(start as int, n as int));
    }
    if n == start {
        return None;
    }
    let mut i: usize = start;
    let mut v: u64 = 0;
    let mut over = false;
    while i < n
        invariant
            n == s@.len(),
            start <= i <= n,
            d == s@.subrange(start as int, n as int),
            d == dec_digits_part(s@),
            forall|k: int| start <= k < i ==> crate::date::is_digit(s@[k]),
            !over ==> v == dec_val(s@.subrange(start as int, i as int)),
            over ==> dec_val(s@.subrange(start as int, i as int)) > u64::MAX,
        decreases n - i,
    {
        let c = s.get_char(i);
        if !('0' <= c && c <= '9') {
            proof {
                assert(d[i - start] == s@[i as int]);
                assert(!crate::date::is_digit(d[i - start]));
            }
            return None;
        }
        let dv = c as u32 - '0' as u32;
        let ghost pre = s@.subrange(start as int, i as int);
        let ghost ext = s@.subrange(start as int, i + 1);
        proof {
            assert(ext.drop_last() =~= pre);
            assert(ext.last() == s@[i as int]);
        }
        if over || v > u64::MAX / 10 || (v == u64::MAX / 10 && dv as u64 > u64::MAX % 10) {
            over = true;
            proof {
                assert(dec_val(ext) > u64::MAX);
            }
        } else {
            v = v * 10 + dv as u64;
        }
        i = i + 1;
    }
    proof {
        assert(s@.subrange(start as int, n as int) == d);
    }
    if over {
        return None;
    }
    Some(v)
}

/// Compares two string slices character by character.
pub fn str_eq(a: &str, b: &str) -> (r: bool)
    ensures
        r == (a@ == b@),
{
    let alen = a.unicode_len();
    let blen = b.unicode_len();
    if alen != blen {
        proof {
            assert(a@ != b@);
        }
        return false;
    }
    let mut i: usize = 0;
    while i < alen
        invariant
            alen == a@.len(),
            alen == b@.len(),
            i <= alen,
            forall|j: int| 0 <= j < i ==> a@[j] == b@[j],
        decreases alen - i,
    {
        if a.get_char(i) != b.get_char(i) {
            return false;
        }
        i = i + 1;
    }
    proof {
        assert(a@ =~= b@);
    }
    true
}

} // verus!
