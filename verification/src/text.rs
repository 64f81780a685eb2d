//! Decimal rendering and parsing of integers, as `Display` and `FromStr`
//! of the primitive integer types do it.

use vstd::prelude::*;
use vstd::string::*;

verus! {

/// The character of a decimal digit.
pub open spec fn digit_char(d: nat) -> char
    recommends
        d < 10,
{
    ('0' as int + d) as char
}

/// Decimal digits of a natural number, most significant first, without
/// leading zeros ("0" for zero).
pub open spec fn digits(n: nat) -> Seq<char>
    decreases n,
{
    if n < 10 {
        seq![digit_char(n)]
    } else {
        digits(n / 10) + seq![digit_char(n % 10)]
    }
}

/// Decimal text of an integer: an optional minus sign, then its digits.
pub open spec fn decimal(n: int) -> Seq<char> {
    if n < 0 {
        seq!['-'] + digits((-n) as nat)
    } else {
        digits(n as nat)
    }
}

fn append_digit(s: &mut String, d: u64)
    requires
        d < 10,
    ensures
        final(s)@ == old(s)@ + seq![digit_char(d as nat)],
{
    proof {
        reveal_strlit("0");
        reveal_strlit("1");
        reveal_strlit("2");
        reveal_strlit("3");
        reveal_strlit("4");
        reveal_strlit("5");
        reveal_strlit("6");
        reveal_strlit("7");
        reveal_strlit("8");
        reveal_strlit("9");
    }
    if d == 0 {
        s.append("0");
    } else if d == 1 {
        s.append("1");
    } else if d == 2 {
        s.append("2");
    } else if d == 3 {
        s.append("3");
    } else if d == 4 {
        s.append("4");
    } else if d == 5 {
        s.append("5");
    } else if d == 6 {
        s.append("6");
    } else if d == 7 {
        s.append("7");
    } else if d == 8 {
        s.append("8");
    } else {
        s.append("9");
    }
}

fn append_digits(s: &mut String, n: u64)
    ensures
        final(s)@ == old(s)@ + digits(n as nat),
    decreases n,
{
    if n >= 10 {
        append_digits(s, n / 10);
        append_digit(s, n % 10);
    } else {
        append_digit(s, n);
    }
}

/// Appends the decimal text of `n` to `s`.
pub fn append_decimal(s: &mut String, n: i64)
    ensures
        final(s)@ == old(s)@ + decimal(n as int),
{
    if n < 0 {
        proof {
            reveal_strlit("-");
        }
        s.append("-");
        let magnitude: u64 = if n == i64::MIN {
            9223372036854775808u64
        } else {
            (-n) as u64
        };
        append_digits(s, magnitude);
    } else {
        append_digits(s, n as u64);
    }
}

/// The decimal text of `n`, as `n.to_string()` gives it.
pub fn decimal_text(n: i64) -> (res: String)
    ensures
        res@ == decimal(n as int),
{
    let mut s = String::new();
    append_decimal(&mut s, n);
    s
}


pub open spec fn is_digit(c: char) -> bool {
    '0' <= c && c <= '9'
}

pub open spec fn digit_value(c: char) -> nat {
    (c as int - '0' as int) as nat
}

pub open spec fn all_digits(s: Seq<char>) -> bool {
    forall|i: int| 0 <= i < s.len() ==> is_digit(#[trigger] s[i])
}

/// The number that a run of decimal digits denotes.
pub open spec fn digits_value(s: Seq<char>) -> nat
    decreases s.len(),
{
    if s.len() == 0 {
        0
    } else {
        10 * digits_value(s.drop_last()) + digit_value(s.last())
    }
}

/// The integer that `s` denotes in the syntax that `FromStr` of the
/// primitive integer types accepts: an optional sign (`+` always, `-` only
/// for a signed type) followed by one or more ASCII digits, nothing else.
pub open spec fn integer_text_value(s: Seq<char>, signed: bool) -> Option<int> {
    if s.len() > 0 && (s[0] == '+' || (signed && s[0] == '-')) {
        let rest = s.drop_first();
        if rest.len() > 0 && all_digits(rest) {
            if s[0] == '-' {
                Some(-(digits_value(rest) as int))
            } else {
                Some(digits_value(rest) as int)
            }
        } else {
            None
        }
    } else if s.len() > 0 && all_digits(s) {
        Some(digits_value(s) as int)
    } else {
        None
    }
}

/// What parsing `s` into an integer type with range `min..=max` gives:
/// the value where `s` denotes one in range, else nothing.
pub open spec fn parsed_integer(s: Seq<char>, signed: bool, min: int, max: int) -> Option<int> {
    match integer_text_value(s, signed) {
        Some(v) => if min <= v && v <= max {
            Some(v)
        } else {
            None
        },
        None => None,
    }
}

proof fn lemma_prefix_value_le(t: Seq<char>, k: int)
    requires
        all_digits(t),
        0 <= k <= t.len(),
    ensures
        digits_value(t.subrange(0, k)) <= digits_value(t),
    decreases t.len(),
{
    if k < t.len() {
        let u = t.drop_last();
        assert(all_digits(u)) by {
            assert forall|i: int| 0 <= i < u.len() implies is_digit(#[trigger] u[i]) by {
                assert(u[i] == t[i]);
            }
        }
        lemma_prefix_value_le(u, k);
        assert(u.subrange(0, k) =~= t.subrange(0, k));
    } else {
        assert(t.subrange(0, k) =~= t);
    }
}

/// Parses `s` as `FromStr` of an integer type with range `min..=max`
/// does (signed where `signed`).
fn parse_integer(s: &str, signed: bool, min: i128, max: i128) -> (res: Option<i128>)
    requires
        -0x1_0000_0000_0000_0000 <= min <= 0 <= max <= 0x1_0000_0000_0000_0000,
    ensures
        match res {
            Some(v) => parsed_integer(s@, signed, min as int, max as int) == Some(v as int),
            None => parsed_integer(s@, signed, min as int, max as int) is None,
        },
{
    let n = s.unicode_len();
    if n == 0 {
        return None;
    }
    let first = s.get_char(0);
    let negative = signed && first == '-';
    let start: usize = if first == '+' || negative {
        1
    } else {
        0
    };
    if start == n {
        return None;
    }
    let limit: i128 = if negative {
        -min
    } else {
        max
    };
    let ghost rest = s@.subrange(start as int, n as int);
    proof {
        if start == 1 {
            assert(s@.drop_first() =~= rest);
        } else {
            assert(s@ =~= rest);
        }
    }
    let ghost denoted: Option<int> = if all_digits(rest) {
        Some(if negative { -(digits_value(rest) as int) } else { digits_value(rest) as int })
    } else {
        None
    };
    assert(integer_text_value(s@, signed) == denoted);
    let mut acc: i128 = 0;
    let mut i: usize = start;
    while i < n
        invariant
            start <= i <= n,
            n == s@.len(),
            rest == s@.subrange(start as int, n as int),
            integer_text_value(s@, signed) == denoted,
            denoted == (if all_digits(rest) {
                Some(if negative { -(digits_value(rest) as int) } else { digits_value(rest) as int })
            } else {
                None::<int>
            }),
            limit == (if negative { -min } else { max as int }),
            0 <= acc <= limit,
            0 <= limit <= 0x1_0000_0000_0000_0000,
            all_digits(s@.subrange(start as int, i as int)),
            acc == digits_value(s@.subrange(start as int, i as int)),
        decreases n - i,
    {
        let c = s.get_char(i);
        proof {
            let p = s@.subrange(start as int, i as int);
            let q = s@.subrange(start as int, i + 1);
            assert(q.drop_last() =~= p);
            assert(q.last() == c);
        }
        if !('0' <= c && c <= '9') {
            proof {
                assert(rest[i - start] == c);
                assert(!all_digits(rest));
            }
            return None;
        }
        let d = (c as u32 - '0' as u32) as i128;
        acc = acc * 10 + d;
        proof {
            let q = s@.subrange(start as int, i + 1);
            assert(all_digits(q)) by {
                assert forall|j: int| 0 <= j < q.len() implies is_digit(#[trigger] q[j]) by {
                    if j < q.len() - 1 {
                        assert(q[j] == s@.subrange(start as int, i as int)[j]);
                    }
                }
            }
        }
        if acc > limit {
            proof {
                let k = i + 1 - start;
                assert(rest.subrange(0, k) =~= s@.subrange(start as int, i + 1));
                if all_digits(rest) {
                    lemma_prefix_value_le(rest, k);
                }
            }
            return None;
        }
        i = i + 1;
    }
    if negative {
        Some(-acc)
    } else {
        Some(acc)
    }
}

/// `s.parse::<i32>()`, with the error reduced to `None`.
pub fn parse_i32(s: &str) -> (res: Option<i32>)
    ensures
        match res {
            Some(v) => parsed_integer(s@, true, i32::MIN as int, i32::MAX as int) == Some(v as int),
            None => parsed_integer(s@, true, i32::MIN as int, i32::MAX as int) is None,
        },
{
    match parse_integer(s, true, i32::MIN as i128, i32::MAX as i128) {
        Some(v) => Some(v as i32),
        None => None,
    }
}

/// `s.parse::<i64>()`, with the error reduced to `None`.
pub fn parse_i64(s: &str) -> (res: Option<i64>)
    ensures
        match res {
            Some(v) => parsed_integer(s@, true, i64::MIN as int, i64::MAX as int) == Some(v as int),
            None => parsed_integer(s@, true, i64::MIN as int, i64::MAX as int) is None,
        },
{
    match parse_integer(s, true, i64::MIN as i128, i64::MAX as i128) {
        Some(v) => Some(v as i64),
        None => None,
    }
}

/// `s.parse::<u16>()`, with the error reduced to `None`.
pub fn parse_u16(s: &str) -> (res: Option<u16>)
    ensures
        match res {
            Some(v) => parsed_integer(s@, false, 0, u16::MAX as int) == Some(v as int),
            None => parsed_integer(s@, false, 0, u16::MAX as int) is None,
        },
{
    match parse_integer(s, false, 0, u16::MAX as i128) {
        Some(v) => Some(v as u16),
        None => None,
    }
}


proof fn lemma_digits_read_back(n: nat)
    ensures
        digits(n).len() > 0,
        all_digits(digits(n)),
        digits_value(digits(n)) == n,
    decreases n,
{
    if n >= 10 {
        lemma_digits_read_back(n / 10);
        let d = digits(n);
        assert(d.drop_last() =~= digits(n / 10));
        assert(d.last() == digit_char(n % 10));
        assert(digit_value(digit_char(n % 10)) == n % 10);
        assert(digits_value(d) == 10 * digits_value(d.drop_last()) + digit_value(d.last()));
        assert(n == 10 * (n / 10) + n % 10);
        assert forall|i: int| 0 <= i < d.len() implies is_digit(#[trigger] d[i]) by {
            if i < d.len() - 1 {
                assert(d[i] == digits(n / 10)[i]);
            }
        }
    } else {
        assert(digits(n).drop_last() =~= Seq::<char>::empty());
        assert(digit_value(digit_char(n)) == n);
        assert(digits_value(Seq::<char>::empty()) == 0);
        assert(digits_value(digits(n)) == 10 * digits_value(digits(n).drop_last()) + digit_value(digits(n).last()));
    }
}

/// Reading back the decimal text of an integer gives the integer: what
/// `decimal_text` writes, the parsers read as the same value.
pub proof fn law_decimal_text_parses_back(n: int)
    ensures
        integer_text_value(decimal(n), true) == Some(n),
        n >= 0 ==> integer_text_value(decimal(n), false) == Some(n),
{
    if n < 0 {
        let m = (-n) as nat;
        lemma_digits_read_back(m);
        assert(decimal(n).drop_first() =~= digits(m));
    } else {
        lemma_digits_read_back(n as nat);
    }
}

} // verus!
