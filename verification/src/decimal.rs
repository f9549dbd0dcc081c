use vstd::prelude::*;

use crate::text::{chars_of, string_from_chars};

verus! {

/// `c` is one of the ASCII digits `0` to `9`.
pub open spec fn is_digit(c: char) -> bool {
    48 <= (c as u32) && (c as u32) <= 57
}

/// The value of the ASCII digit `c`.
pub open spec fn digit_value(c: char) -> int {
    (c as u32) - 48
}

/// Every character of `s` is an ASCII digit.
pub open spec fn all_digits(s: Seq<char>) -> bool {
    forall|i: int| 0 <= i < s.len() ==> is_digit(#[trigger] s[i])
}

/// The value of the decimal numeral `s` (most significant digit first).
pub open spec fn numeral_value(s: Seq<char>) -> int
    decreases s.len(),
{
    if s.len() == 0 {
        0
    } else {
        numeral_value(s.drop_last()) * 10 + digit_value(s.last())
    }
}

/// What parsing `s` as a decimal integer gives: an optional `+` or `-` sign followed by
/// one or more ASCII digits, and nothing else; `None` for any other text.
pub open spec fn integer_of(s: Seq<char>) -> Option<int> {
    if s.len() == 0 {
        None
    } else if (s[0] == '+' || s[0] == '-') && s.len() == 1 {
        None
    } else if s[0] == '+' {
        if all_digits(s.skip(1)) {
            Some(numeral_value(s.skip(1)))
        } else {
            None
        }
    } else if s[0] == '-' {
        if all_digits(s.skip(1)) {
            Some(-numeral_value(s.skip(1)))
        } else {
            None
        }
    } else if all_digits(s) {
        Some(numeral_value(s))
    } else {
        None
    }
}

/// The character of the digit `d`.
pub open spec fn digit_char(d: int) -> char {
    if d == 0 {
        '0'
    } else if d == 1 {
        '1'
    } else if d == 2 {
        '2'
    } else if d == 3 {
        '3'
    } else if d == 4 {
        '4'
    } else if d == 5 {
        '5'
    } else if d == 6 {
        '6'
    } else if d == 7 {
        '7'
    } else if d == 8 {
        '8'
    } else {
        '9'
    }
}

/// The shortest decimal numeral of `n`.
pub open spec fn numeral_of(n: nat) -> Seq<char>
    decreases n,
{
    if n < 10 {
        seq![digit_char(n as int)]
    } else {
        numeral_of(n / 10).push(digit_char((n % 10) as int))
    }
}

/// The decimal text of `i`: a `-` before the digits of a negative number, no leading zeros.
pub open spec fn text_of_int(i: int) -> Seq<char> {
    if i < 0 {
        seq!['-'] + numeral_of((-i) as nat)
    } else {
        numeral_of(i as nat)
    }
}

proof fn lemma_digit_char(d: int)
    requires
        0 <= d < 10,
    ensures
        is_digit(digit_char(d)),
        digit_value(digit_char(d)) == d,
{
}

proof fn lemma_numeral_of(n: nat)
    ensures
        numeral_of(n).len() > 0,
        all_digits(numeral_of(n)),
        numeral_value(numeral_of(n)) == n,
        numeral_of(n)[0] != '-' && numeral_of(n)[0] != '+',
    decreases n,
{
    if n < 10 {
        lemma_digit_char(n as int);
        assert(numeral_of(n).drop_last() =~= Seq::<char>::empty());
        assert(numeral_value(Seq::<char>::empty()) == 0);
        assert(numeral_value(numeral_of(n)) == numeral_value(numeral_of(n).drop_last()) * 10
            + digit_value(numeral_of(n).last()));
    } else {
        lemma_numeral_of(n / 10);
        lemma_digit_char((n % 10) as int);
        let s = numeral_of(n);
        assert(s.drop_last() =~= numeral_of(n / 10));
        assert forall|i: int| 0 <= i < s.len() implies is_digit(#[trigger] s[i]) by {
            if i < s.len() - 1 {
                assert(s[i] == numeral_of(n / 10)[i]);
            }
        }
        assert(s[0] == numeral_of(n / 10)[0]);
        assert(s.last() == digit_char((n % 10) as int));
        assert((n / 10) * 10 + n % 10 == n);
        assert(numeral_value(s) == numeral_value(s.drop_last()) * 10 + digit_value(s.last()));
    }
}

/// Reading back the decimal text of an integer gives the integer.
pub proof fn lemma_integer_of_text(i: int)
    ensures
        integer_of(text_of_int(i)) == Some(i),
{
    if i < 0 {
        let n = (-i) as nat;
        lemma_numeral_of(n);
        let s = text_of_int(i);
        assert(s.skip(1) =~= numeral_of(n));
        assert(s[0] == '-');
    } else {
        lemma_numeral_of(i as nat);
    }
}

proof fn lemma_numeral_value_push(s: Seq<char>, c: char)
    ensures
        numeral_value(s.push(c)) == numeral_value(s) * 10 + digit_value(c),
{
    assert(s.push(c).drop_last() =~= s);
}

proof fn lemma_numeral_value_nonneg(s: Seq<char>)
    requires
        all_digits(s),
    ensures
        numeral_value(s) >= 0,
    decreases s.len(),
{
    if s.len() > 0 {
        assert(all_digits(s.drop_last())) by {
            assert forall|i: int| 0 <= i < s.drop_last().len() implies is_digit(
                #[trigger] s.drop_last()[i],
            ) by {
                assert(s.drop_last()[i] == s[i]);
            }
        }
        lemma_numeral_value_nonneg(s.drop_last());
        assert(is_digit(s[s.len() - 1]));
    }
}

/// The value of the numeral held in `v[from..]`, or `None` when a character there is not a
/// digit, when there is none, or when the value exceeds `cap`.
fn numeral_up_to(v: &Vec<char>, from: usize, cap: i128) -> (r: Option<i128>)
    requires
        from <= v.len(),
        0 <= cap <= 0x1_0000_0000_0000_0000,
    ensures
        r matches Some(x) ==> v@.skip(from as int).len() > 0 && all_digits(v@.skip(from as int))
            && x == numeral_value(v@.skip(from as int)) && 0 <= x <= cap,
        r is None ==> v@.skip(from as int).len() == 0 || !all_digits(v@.skip(from as int))
            || numeral_value(v@.skip(from as int)) > cap,
{
    let ghost s = v@.skip(from as int);
    if from == v.len() {
        return None;
    }
    let mut acc: i128 = 0;
    let mut over = false;
    let mut i = from;
    while i < v.len()
        invariant
            from <= i <= v.len(),
            s == v@.skip(from as int),
            0 <= cap <= 0x1_0000_0000_0000_0000,
            all_digits(s.take(i - from)),
            !over ==> acc == numeral_value(s.take(i - from)) && acc <= cap,
            over ==> numeral_value(s.take(i - from)) > cap,
            0 <= acc <= cap,
        decreases v.len() - i,
    {
        let c = v[i];
        let code = c as u32;
        assert(s[i - from] == c);
        if code < 48 || code > 57 {
            assert(!is_digit(s[i - from]));
            return None;
        }
        let d = (code - 48) as i128;
        assert(s.take(i - from + 1) =~= s.take(i - from).push(c));
        proof {
            lemma_numeral_value_push(s.take(i - from), c);
            assert(all_digits(s.take(i - from + 1))) by {
                assert forall|k: int| 0 <= k < s.take(i - from + 1).len() implies is_digit(
                    #[trigger] s.take(i - from + 1)[k],
                ) by {
                    if k < i - from {
                        assert(s.take(i - from + 1)[k] == s.take(i - from)[k]);
                    }
                }
            }
            lemma_numeral_value_nonneg(s.take(i - from));
        }
        if !over {
            let next = acc * 10 + d;
            if next > cap {
                over = true;
            } else {
                acc = next;
            }
        }
        i = i + 1;
    }
    assert(s.take(v.len() - from) =~= s);
    if over {
        None
    } else {
        Some(acc)
    }
}

/// Parses `s` as a decimal integer in `[lo, hi]`.
fn parse_in_range(s: &str, lo: i128, hi: i128) -> (r: Option<i128>)
    requires
        -0x1_0000_0000_0000_0000 <= lo <= 0,
        0 <= hi <= 0x1_0000_0000_0000_0000,
    ensures
        r == (match integer_of(s@) {
            Some(x) => if lo <= x <= hi {
                Some(x as i128)
            } else {
                None::<i128>
            },
            None => None::<i128>,
        }),
{
    let v = chars_of(s);
    if v.len() == 0 {
        return None;
    }
    let first = v[0];
    if (first == '+' || first == '-') && v.len() == 1 {
        return None;
    }
    if first == '-' {
        let m = numeral_up_to(&v, 1, -lo);
        match m {
            Some(x) => {
                return Some(-x);
            },
            None => {
                proof {
                    if all_digits(s@.skip(1)) && s@.skip(1).len() > 0 {
                        lemma_numeral_value_nonneg(s@.skip(1));
                    }
                }
                return None;
            },
        }
    }
    let from: usize = if first == '+' {
        1
    } else {
        0
    };
    assert(v@.skip(0) =~= v@);
    let m = numeral_up_to(&v, from, hi);
    match m {
        Some(x) => Some(x),
        None => {
            proof {
                if all_digits(s@.skip(from as int)) && s@.skip(from as int).len() > 0 {
                    lemma_numeral_value_nonneg(s@.skip(from as int));
                }
            }
            None
        },
    }
}

/// What std's `str::parse::<i32>` gives for `s`.
pub open spec fn i32_of(s: Seq<char>) -> Option<i32> {
    match integer_of(s) {
        Some(x) => if i32::MIN <= x <= i32::MAX {
            Some(x as i32)
        } else {
            None
        },
        None => None,
    }
}

/// What std's `str::parse::<i64>` gives for `s`.
pub open spec fn i64_of(s: Seq<char>) -> Option<i64> {
    match integer_of(s) {
        Some(x) => if i64::MIN <= x <= i64::MAX {
            Some(x as i64)
        } else {
            None
        },
        None => None,
    }
}

/// Parses a decimal `i32`: an optional sign, then digits only.
pub fn parse_i32(s: &str) -> (r: Option<i32>)
    ensures
        r == i32_of(s@),
{
    match parse_in_range(s, -0x8000_0000, 0x7fff_ffff) {
        Some(x) => Some(x as i32),
        None => None,
    }
}

/// Parses a decimal `i64`: an optional sign, then digits only.
pub fn parse_i64(s: &str) -> (r: Option<i64>)
    ensures
        r == i64_of(s@),
{
    match parse_in_range(s, -0x8000_0000_0000_0000, 0x7fff_ffff_ffff_ffff) {
        Some(x) => Some(x as i64),
        None => None,
    }
}

/// The session value `value` read as an `i32`, or `default` when it is missing or is not a
/// decimal `i32` (how the session counters are read back).
pub fn session_i32(value: Option<&str>, default: i32) -> (r: i32)
    ensures
        r == (match value {
            Some(s) => match i32_of(s@) {
                Some(x) => x,
                None => default,
            },
            None => default,
        }),
{
    match value {
        Some(s) => match parse_i32(s) {
            Some(x) => x,
            None => default,
        },
        None => default,
    }
}

/// The session value `value` read as an `i64`, or `default` when it is missing or is not a
/// decimal `i64`.
pub fn session_i64(value: Option<&str>, default: i64) -> (r: i64)
    ensures
        r == (match value {
            Some(s) => match i64_of(s@) {
                Some(x) => x,
                None => default,
            },
            None => default,
        }),
{
    match value {
        Some(s) => match parse_i64(s) {
            Some(x) => x,
            None => default,
        },
        None => default,
    }
}

fn digit_to_char(d: u8) -> (c: char)
    requires
        d < 10,
    ensures
        c == digit_char(d as int),
{
    match d {
        0 => '0',
        1 => '1',
        2 => '2',
        3 => '3',
        4 => '4',
        5 => '5',
        6 => '6',
        7 => '7',
        8 => '8',
        _ => '9',
    }
}

fn push_numeral(n: u128, out: &mut Vec<char>)
    ensures
        final(out)@ == old(out)@ + numeral_of(n as nat),
    decreases n,
{
    if n < 10 {
        out.push(digit_to_char(n as u8));
        assert(old(out)@.push(digit_char(n as int)) =~= old(out)@ + seq![digit_char(n as int)]);
    } else {
        push_numeral(n / 10, out);
        let ghost mid = out@;
        out.push(digit_to_char((n % 10) as u8));
        assert(mid.push(digit_char((n % 10) as int)) =~= old(out)@ + numeral_of((n / 10) as nat).push(
            digit_char((n % 10) as int),
        ));
    }
}

/// The decimal text of `n` (what std's `to_string` gives for an `i64`).
pub fn format_i64(n: i64) -> (s: String)
    ensures
        s@ == text_of_int(n as int),
{
    let mut v: Vec<char> = Vec::new();
    if n < 0 {
        v.push('-');
        let m: i128 = -(n as i128);
        push_numeral(m as u128, &mut v);
    } else {
        push_numeral(n as u128, &mut v);
        assert(Seq::<char>::empty() + numeral_of(n as nat) =~= numeral_of(n as nat));
    }
    string_from_chars(&v)
}

/// A counter written to the session with [`format_i64`] is read back unchanged by
/// [`session_i64`], whatever the default.
pub proof fn law_session_counter_round_trip(n: i64)
    ensures
        i64_of(text_of_int(n as int)) == Some(n),
{
    lemma_integer_of_text(n as int);
}

} // verus!
