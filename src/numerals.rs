//! Decimal numerals: the text of a number, and the number of a text.
use vstd::prelude::*;
use vstd::string::*;

verus! {

/// The character of the decimal digit `d`.
pub open spec fn digit_char(d: int) -> char
    recommends
        0 <= d < 10,
{
    (('0' as int) + d) as char
}

/// The decimal digits of `n`, most significant first, without leading zeros.
pub open spec fn nat_text(n: nat) -> Seq<char>
    decreases n,
{
    if n < 10 {
        seq![digit_char(n as int)]
    } else {
        nat_text(n / 10).push(digit_char((n % 10) as int))
    }
}

/// The decimal text of `n`, with a leading `-` when it is negative.
pub open spec fn int_text(n: int) -> Seq<char> {
    if n < 0 {
        seq!['-'] + nat_text((-n) as nat)
    } else {
        nat_text(n as nat)
    }
}

fn digit_str(d: u32) -> (r: &'static str)
    requires
        d < 10,
    ensures
        r@ == seq![digit_char(d as int)],
{
    proof {
        reveal_strlit("0");
        reveal_strlit("1");
        reveal_strlit("2");
        reveal_strlit("3");
        reveal_strlit("4");
        reveal_strlit("5");
        reveal_strlit("6");
        reveal_strlit("7");
        reveal_strlit("8");
        reveal_strlit("9");
    }
    match d {
        0 => "0",
        1 => "1",
        2 => "2",
        3 => "3",
        4 => "4",
        5 => "5",
        6 => "6",
        7 => "7",
        8 => "8",
        _ => "9",
    }
}

/// Appends the decimal digits of `n` to `s`.
pub fn push_digits(s: &mut String, n: u32)
    ensures
        final(s)@ == old(s)@ + nat_text(n as nat),
    decreases n,
{
    let ghost before = s@;
    if n >= 10 {
        push_digits(s, n / 10);
    }
    s.append(digit_str(n % 10));
    proof {
        if n >= 10 {
            assert(before + nat_text(n as nat) =~= before + nat_text((n / 10) as nat) + seq![
                digit_char((n % 10) as int),
            ]);
        } else {
            assert(nat_text(n as nat) == seq![digit_char((n % 10) as int)]);
        }
    }
}

/// The decimal text of `n`.
pub fn decimal_text(n: i32) -> (r: String)
    ensures
        r@ == int_text(n as int),
{
    let mut s = String::new();
    if n < 0 {
        proof {
            reveal_strlit("-");
        }
        s.append("-");
        let magnitude: i64 = -(n as i64);
        push_digits(&mut s, magnitude as u32);
    } else {
        push_digits(&mut s, n as u32);
    }
    s
}

/// Whether `c` is one of the ASCII digits `0` to `9`.
pub open spec fn is_digit(c: char) -> bool {
    '0' <= c <= '9'
}

/// What the ASCII digit `c` stands for.
pub open spec fn digit_value(c: char) -> int {
    (c as int) - ('0' as int)
}

/// Whether `s` is a non-empty run of ASCII digits.
pub open spec fn is_digits(s: Seq<char>) -> bool {
    &&& s.len() > 0
    &&& forall|i: int| 0 <= i < s.len() ==> is_digit(#[trigger] s[i])
}

/// The number that the digits `s` spell, most significant first.
pub open spec fn digits_value(s: Seq<char>) -> int
    decreases s.len(),
{
    if s.len() == 0 {
        0
    } else {
        10 * digits_value(s.drop_last()) + digit_value(s.last())
    }
}

/// What `s` denotes as a decimal numeral: an optional sign, then one or more
/// ASCII digits, with no other character. A `-` sign is read only where `signed`.
pub open spec fn numeral_value(s: Seq<char>, signed: bool) -> Option<int> {
    if s.len() > 0 && (s[0] == '+' || (signed && s[0] == '-')) {
        if is_digits(s.drop_first()) {
            if s[0] == '-' {
                Some(-digits_value(s.drop_first()))
            } else {
                Some(digits_value(s.drop_first()))
            }
        } else {
            None
        }
    } else if is_digits(s) {
        Some(digits_value(s))
    } else {
        None
    }
}

/// A magnitude beyond every `u32` and every `i32`, at which a scan stops counting.
pub const SCAN_CAP: i64 = 0x1_0000_0000;

/// `v` with its magnitude cut down to [`SCAN_CAP`].
pub open spec fn capped(v: int) -> int {
    if v > SCAN_CAP {
        SCAN_CAP as int
    } else if v < -SCAN_CAP {
        -SCAN_CAP
    } else {
        v
    }
}

proof fn lemma_digits_nonnegative(s: Seq<char>)
    requires
        forall|i: int| 0 <= i < s.len() ==> is_digit(#[trigger] s[i]),
    ensures
        digits_value(s) >= 0,
    decreases s.len(),
{
    if s.len() > 0 {
        assert forall|i: int| 0 <= i < s.drop_last().len() implies is_digit(
            #[trigger] s.drop_last()[i],
        ) by {
            assert(s.drop_last()[i] == s[i]);
        }
        lemma_digits_nonnegative(s.drop_last());
        assert(is_digit(s[s.len() - 1]));
    }
}

/// Reads `s` as a decimal numeral, keeping magnitudes up to [`SCAN_CAP`] exact.
fn scan_numeral(s: &str, signed: bool) -> (r: Option<i64>)
    ensures
        r is None <==> numeral_value(s@, signed) is None,
        r matches Some(x) ==> x == capped(numeral_value(s@, signed)->0),
{
    let n = s.unicode_len();
    if n == 0 {
        return None;
    }
    let first = s.get_char(0);
    let negative = signed && first == '-';
    let start: usize = if first == '+' || negative {
        1
    } else {
        0
    };
    let ghost digits = s@.subrange(start as int, n as int);
    if start == n {
        assert(!is_digits(s@.drop_first()));
        return None;
    }
    let mut acc: i64 = 0;
    let mut i: usize = start;
    while i < n
        invariant
            start <= i <= n,
            n == s@.len(),
            start <= 1,
            start == 1 <==> (s@[0] == '+' || (signed && s@[0] == '-')),
            negative == (signed && s@[0] == '-'),
            digits == s@.subrange(start as int, n as int),
            forall|j: int| start <= j < i ==> is_digit(#[trigger] s@[j]),
            acc == capped(digits_value(s@.subrange(start as int, i as int))),
            0 <= acc <= SCAN_CAP,
        decreases n - i,
    {
        let c = s.get_char(i);
        if !('0' <= c && c <= '9') {
            assert(!is_digits(digits)) by {
                assert(digits[i - start] == c);
            }
            proof {
                if start == 1 {
                    assert(digits =~= s@.drop_first());
                } else {
                    assert(digits =~= s@);
                    assert(!is_digits(s@)) by {
                        assert(s@[i as int] == c);
                    }
                }
            }
            return None;
        }
        let d = (c as u32 - '0' as u32) as i64;
        let ghost prefix = s@.subrange(start as int, i as int);
        proof {
            assert(s@.subrange(start as int, i + 1).drop_last() =~= prefix);
            assert(forall|j: int| 0 <= j < prefix.len() ==> #[trigger] prefix[j] == s@[start + j]);
            lemma_digits_nonnegative(prefix);
        }
        acc = if acc > (SCAN_CAP - d) / 10 {
            SCAN_CAP
        } else {
            acc * 10 + d
        };
        i = i + 1;
    }
    proof {
        assert(s@.subrange(start as int, n as int) =~= digits);
        assert(is_digits(digits)) by {
            assert forall|j: int| 0 <= j < digits.len() implies is_digit(#[trigger] digits[j]) by {
                assert(digits[j] == s@[start + j]);
            }
        }
        if start == 1 {
            assert(digits =~= s@.drop_first());
        } else {
            assert(digits =~= s@);
        }
    }
    Some(
        if negative {
            -acc
        } else {
            acc
        },
    )
}

/// `s` read as an `i32`, as `str::parse::<i32>` reads it: `+` or `-`, then digits,
/// and a value in range.
pub fn parse_i32(s: &str) -> (r: Option<i32>)
    ensures
        r is Some <==> (numeral_value(s@, true) matches Some(v) && i32::MIN <= v <= i32::MAX),
        r matches Some(x) ==> numeral_value(s@, true) == Some(x as int),
{
    match scan_numeral(s, true) {
        Some(x) => {
            if i32::MIN as i64 <= x && x <= i32::MAX as i64 {
                Some(x as i32)
            } else {
                None
            }
        },
        None => None,
    }
}

/// `s` read as a `u32`, as `str::parse::<u32>` reads it: an optional `+`, then
/// digits, and a value in range.
pub fn parse_u32(s: &str) -> (r: Option<u32>)
    ensures
        r is Some <==> (numeral_value(s@, false) matches Some(v) && 0 <= v <= u32::MAX),
        r matches Some(x) ==> numeral_value(s@, false) == Some(x as int),
{
    match scan_numeral(s, false) {
        Some(x) => {
            if 0 <= x && x <= u32::MAX as i64 {
                Some(x as u32)
            } else {
                None
            }
        },
        None => None,
    }
}

} // verus!
