//! Decimal integers as a user types them.
use vstd::prelude::*;

verus! {

/// An ASCII decimal digit.
pub open spec fn is_digit(c: char) -> bool {
    '0' <= c <= '9'
}

/// The number written by the decimal digits `s`.
pub open spec fn digits_value(s: Seq<char>) -> nat
    decreases s.len(),
{
    if s.len() == 0 {
        0
    } else {
        digits_value(s.drop_last()) * 10 + (s.last() as nat - '0' as nat) as nat
    }
}

/// Every character of `s` is a decimal digit.
pub open spec fn all_digits(s: Seq<char>) -> bool {
    forall|i: int| 0 <= i < s.len() ==> is_digit(#[trigger] s[i])
}

/// `s` starts with a minus sign that counts as one.
pub open spec fn negative(s: Seq<char>, signed: bool) -> bool {
    signed && s.len() > 0 && s[0] == '-'
}

/// `s` without its sign.
pub open spec fn unsigned_part(s: Seq<char>, signed: bool) -> Seq<char> {
    if s.len() > 0 && (s[0] == '+' || negative(s, signed)) {
        s.drop_first()
    } else {
        s
    }
}

/// The number written in `s`: an optional `+` sign (or `-`, when `signed`)
/// followed by one or more decimal digits and nothing else.
pub open spec fn decimal(s: Seq<char>, signed: bool) -> Option<int> {
    let neg = negative(s, signed);
    let body = unsigned_part(s, signed);
    if body.len() > 0 && all_digits(body) {
        Some(
            if neg {
                -digits_value(body)
            } else {
                digits_value(body) as int
            },
        )
    } else {
        None
    }
}

/// Above every magnitude that a 64-bit integer can have.
pub const MAGNITUDE_CAP: u128 = 0x2_0000_0000_0000_0000;

/// Reads a decimal number as `decimal` describes it: whether it is negative,
/// and its magnitude, which stops growing at `MAGNITUDE_CAP`.
pub fn parse_decimal(s: &str, signed: bool) -> (r: Option<(bool, u128)>)
    ensures
        r is Some <==> decimal(s@, signed) is Some,
        r matches Some((neg, mag)) ==> ({
            let d = decimal(s@, signed).unwrap();
            &&& neg ==> d <= 0
            &&& !neg ==> d >= 0
            &&& if d < 0 { -d } else { d } < MAGNITUDE_CAP ==> mag == if d < 0 { -d } else { d }
            &&& if d < 0 { -d } else { d } >= MAGNITUDE_CAP ==> mag == MAGNITUDE_CAP
        }),
{
    let n = s.unicode_len();
    if n == 0 {
        return None;
    }
    let first = s.get_char(0);
    let neg = signed && first == '-';
    let start: usize = if first == '+' || neg {
        1
    } else {
        0
    };
    let ghost body = unsigned_part(s@, signed);
    assert(body =~= s@.subrange(start as int, n as int));
    assert(neg == negative(s@, signed));
    if start == n {
        return None;
    }
    let mut mag: u128 = 0;
    let mut i: usize = start;
    while i < n
        invariant
            start <= i <= n,
            n == s@.len(),
            body == s@.subrange(start as int, n as int),
            body == unsigned_part(s@, signed),
            neg == negative(s@, signed),
            forall|k: int| start <= k < i ==> is_digit(#[trigger] s@[k]),
            digits_value(s@.subrange(start as int, i as int)) < MAGNITUDE_CAP ==> mag == digits_value(
                s@.subrange(start as int, i as int),
            ),
            digits_value(s@.subrange(start as int, i as int)) >= MAGNITUDE_CAP ==> mag == MAGNITUDE_CAP,
        decreases n - i,
    {
        let c = s.get_char(i);
        if !('0' <= c && c <= '9') {
            assert(body[i - start] == s@[i as int]);
            assert(!is_digit(body[i - start]));
            assert(!all_digits(body));
            assert(neg == negative(s@, signed));
            assert(decimal(s@, signed) is None);
            return None;
        }
        let d = (c as u32 - '0' as u32) as u128;
        let ghost before = digits_value(s@.subrange(start as int, i as int));
        proof {
            assert(s@.subrange(start as int, i + 1).drop_last() =~= s@.subrange(start as int, i as int));
            assert(s@.subrange(start as int, i + 1).last() == c);
            assert(digits_value(s@.subrange(start as int, i + 1)) == before * 10 + d);
        }
        if mag < MAGNITUDE_CAP {
            mag = mag * 10 + d;
            if mag > MAGNITUDE_CAP {
                mag = MAGNITUDE_CAP;
            }
        }
        i = i + 1;
    }
    assert(s@.subrange(start as int, n as int) == body);
    assert forall|k: int| 0 <= k < body.len() implies is_digit(#[trigger] body[k]) by {
        assert(body[k] == s@[start + k]);
    }
    Some((neg, mag))
}

} // verus!
