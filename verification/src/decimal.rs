//! Decimal integers: the `i32` syntax that `str::parse::<i32>` accepts and
//! the rendering that `i32`'s `Display` produces.

use vstd::prelude::*;

use crate::text::push_char;

verus! {

/// An ASCII decimal digit.
pub open spec fn is_digit(c: char) -> bool {
    0x30 <= (c as u32) <= 0x39
}

/// The value of an ASCII decimal digit.
pub open spec fn digit_value(c: char) -> int {
    (c as u32) - 0x30
}

/// Every character of `s` is an ASCII decimal digit.
pub open spec fn all_digits(s: Seq<char>) -> bool {
    forall|i: int| 0 <= i < s.len() ==> is_digit(#[trigger] s[i])
}

/// The value of a string of decimal digits, most significant first.
pub open spec fn digits_value(s: Seq<char>) -> int
    decreases s.len(),
{
    if s.len() == 0 {
        0
    } else {
        digits_value(s.drop_last()) * 10 + digit_value(s.last())
    }
}

/// Whether `s` begins with a `'+'` or `'-'` sign.
pub open spec fn has_sign(s: Seq<char>) -> bool {
    s.len() > 0 && (s[0] == '-' || s[0] == '+')
}

/// `s` without its sign, if it has one.
pub open spec fn unsigned_part(s: Seq<char>) -> Seq<char> {
    if has_sign(s) {
        s.drop_first()
    } else {
        s
    }
}

/// What `str::parse::<i32>` gives for `s`: an optional `'+'` or `'-'` sign
/// followed by at least one ASCII digit, whose value must fit in an `i32`;
/// anything else (empty text, a bare sign, any other character, overflow)
/// is an error, here `None`.
pub open spec fn spec_parse_i32(s: Seq<char>) -> Option<i32> {
    let digits = unsigned_part(s);
    if digits.len() > 0 && all_digits(digits) {
        let v = if s[0] == '-' {
            -digits_value(digits)
        } else {
            digits_value(digits)
        };
        if i32::MIN <= v <= i32::MAX {
            Some(v as i32)
        } else {
            None
        }
    } else {
        None
    }
}

/// The ASCII digit for `d`, which is below 10.
pub open spec fn digit_char(d: nat) -> char {
    if d == 0 {
        '0'
    } else if d == 1 {
        '1'
    } else if d == 2 {
        '2'
    } else if d == 3 {
        '3'
    } else if d == 4 {
        '4'
    } else if d == 5 {
        '5'
    } else if d == 6 {
        '6'
    } else if d == 7 {
        '7'
    } else if d == 8 {
        '8'
    } else {
        '9'
    }
}

/// The decimal rendering of `n`: no sign, no leading zeros.
pub open spec fn spec_decimal_nat(n: nat) -> Seq<char>
    decreases n,
{
    if n < 10 {
        seq![digit_char(n)]
    } else {
        spec_decimal_nat(n / 10).push(digit_char(n % 10))
    }
}

/// The decimal rendering of `v` that `i32`'s `Display` produces: a `'-'` for
/// negative values, then the digits of the magnitude.
pub open spec fn spec_decimal_i32(v: i32) -> Seq<char> {
    if v < 0 {
        seq!['-'] + spec_decimal_nat((-v) as nat)
    } else {
        spec_decimal_nat(v as nat)
    }
}

proof fn lemma_digits_value_nonneg(s: Seq<char>)
    requires
        all_digits(s),
    ensures
        digits_value(s) >= 0,
    decreases s.len(),
{
    if s.len() > 0 {
        assert(is_digit(s[s.len() - 1]));
        lemma_digits_value_nonneg(s.drop_last());
    }
}

/// A longer run of digits is worth at least as much as its prefix.
proof fn lemma_digits_value_prefix(s: Seq<char>, i: int)
    requires
        all_digits(s),
        0 <= i <= s.len(),
    ensures
        digits_value(s.take(i)) <= digits_value(s),
    decreases s.len() - i,
{
    if i < s.len() {
        lemma_digits_value_prefix(s, i + 1);
        let t = s.take(i + 1);
        assert(t.drop_last() =~= s.take(i));
        assert(is_digit(t.last()));
        assert(all_digits(s.take(i)));
        lemma_digits_value_nonneg(s.take(i));
    } else {
        assert(s.take(i) =~= s);
    }
}

proof fn lemma_digit_char(d: nat)
    requires
        d < 10,
    ensures
        is_digit(digit_char(d)),
        digit_value(digit_char(d)) == d,
{
}

/// The rendering of a natural number is a nonempty run of digits worth it.
pub proof fn lemma_decimal_nat(n: nat)
    ensures
        spec_decimal_nat(n).len() >= 1,
        all_digits(spec_decimal_nat(n)),
        digits_value(spec_decimal_nat(n)) == n,
    decreases n,
{
    lemma_digit_char(n % 10);
    if n >= 10 {
        lemma_decimal_nat(n / 10);
        let s = spec_decimal_nat(n);
        assert(s.drop_last() =~= spec_decimal_nat(n / 10));
        assert(n == (n / 10) * 10 + n % 10);
    } else {
        let s = spec_decimal_nat(n);
        assert(s.drop_last() =~= Seq::<char>::empty());
        assert(digits_value(Seq::<char>::empty()) == 0);
        assert(n % 10 == n);
    }
}

/// The rendering of an `i32` is digits, with a leading `'-'` for negative
/// values, and ends in a digit.
pub proof fn lemma_decimal_i32_shape(v: i32)
    ensures
        spec_decimal_i32(v).len() >= 1,
        is_digit(spec_decimal_i32(v).last()),
        forall|i: int|
            0 <= i < spec_decimal_i32(v).len() ==> is_digit(#[trigger] spec_decimal_i32(v)[i])
                || spec_decimal_i32(v)[i] == '-',
{
    if v < 0 {
        lemma_decimal_nat((-v) as nat);
        let d = spec_decimal_nat((-v) as nat);
        let s = spec_decimal_i32(v);
        assert forall|i: int| 0 <= i < s.len() implies is_digit(#[trigger] s[i]) || s[i] == '-' by {
            if i > 0 {
                assert(s[i] == d[i - 1]);
            }
        }
        assert(s.last() == d.last());
    } else {
        lemma_decimal_nat(v as nat);
    }
}

/// Parsing the rendering of an `i32` gives the value back.
pub proof fn lemma_parse_decimal_i32(v: i32)
    ensures
        spec_parse_i32(spec_decimal_i32(v)) == Some(v),
{
    if v < 0 {
        let n = (-v) as nat;
        lemma_decimal_nat(n);
        let s = spec_decimal_i32(v);
        assert(s.drop_first() =~= spec_decimal_nat(n));
    } else {
        lemma_decimal_nat(v as nat);
        let s = spec_decimal_i32(v);
        assert(is_digit(s[0]));
    }
}

/// `s` parsed as an `i32` the way `str::parse::<i32>` does it.
pub fn parse_i32(s: &[char]) -> (r: Option<i32>)
    ensures
        r == spec_parse_i32(s@),
{
    let n = s.len();
    let negative = n > 0 && s[0] == '-';
    let start: usize = if n > 0 && (s[0] == '-' || s[0] == '+') {
        1
    } else {
        0
    };
    let ghost digits = unsigned_part(s@);
    assert(digits =~= s@.subrange(start as int, n as int));
    if start >= n {
        return None;
    }
    let mut acc: u64 = 0;
    let mut i: usize = start;
    while i < n
        invariant
            start <= i <= n,
            n == s@.len(),
            digits == s@.subrange(start as int, n as int),
            digits == unsigned_part(s@),
            all_digits(s@.subrange(start as int, i as int)),
            acc == digits_value(s@.subrange(start as int, i as int)),
            acc <= 2147483648,
        decreases n - i,
    {
        let c = s[i];
        let u = c as u32;
        if !(0x30 <= u && u <= 0x39) {
            assert(digits[i - start] == c);
            assert(!is_digit(digits[i - start]));
            assert(!all_digits(digits));
            return None;
        }
        let d = (u - 0x30) as u64;
        acc = acc * 10 + d;
        let ghost prefix = s@.subrange(start as int, i + 1);
        assert(prefix.drop_last() =~= s@.subrange(start as int, i as int));
        assert(all_digits(prefix));
        assert(acc == digits_value(prefix));
        i += 1;
        if acc > 2147483648 {
            proof {
                if all_digits(digits) {
                    assert(digits.take(i - start) =~= prefix);
                    lemma_digits_value_prefix(digits, i - start);
                    assert(digits_value(digits) > 2147483648);
                }
            }
            return None;
        }
    }
    assert(s@.subrange(start as int, n as int) =~= digits);
    if negative {
        Some((-(acc as i64)) as i32)
    } else if acc <= 2147483647 {
        Some(acc as i32)
    } else {
        None
    }
}

/// The ASCII digit for `d`.
fn digit_to_char(d: u32) -> (c: char)
    requires
        d < 10,
    ensures
        c == digit_char(d as nat),
{
    match d {
        0 => '0',
        1 => '1',
        2 => '2',
        3 => '3',
        4 => '4',
        5 => '5',
        6 => '6',
        7 => '7',
        8 => '8',
        _ => '9',
    }
}

/// Appends the decimal rendering of `n` to `s`.
pub fn push_decimal_u32(s: &mut String, n: u32)
    ensures
        final(s)@ == old(s)@ + spec_decimal_nat(n as nat),
    decreases n,
{
    if n >= 10 {
        push_decimal_u32(s, n / 10);
    }
    push_char(s, digit_to_char(n % 10));
    proof {
        if n >= 10 {
            assert(old(s)@ + spec_decimal_nat(n as nat) =~= old(s)@ + spec_decimal_nat(
                (n / 10) as nat,
            ) + seq![digit_char((n % 10) as nat)]);
        } else {
            assert(old(s)@ + spec_decimal_nat(n as nat) =~= old(s)@.push(digit_char(n as nat)));
        }
    }
}

/// Appends the decimal rendering of `v` to `s`, as `i32`'s `Display` writes it.
pub fn push_decimal_i32(s: &mut String, v: i32)
    ensures
        final(s)@ == old(s)@ + spec_decimal_i32(v),
{
    if v < 0 {
        push_char(s, '-');
        let magnitude = (-(v as i64)) as u32;
        push_decimal_u32(s, magnitude);
        assert(old(s)@ + spec_decimal_i32(v) =~= old(s)@.push('-') + spec_decimal_nat(
            magnitude as nat,
        ));
    } else {
        push_decimal_u32(s, v as u32);
    }
}

} // verus!
