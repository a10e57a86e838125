//! Decimal numerals: reading integers the way Rust's `FromStr` for the
//! integer types reads them, and writing them the way `Display` writes them.
use vstd::prelude::*;
use crate::text::push_char;

verus! {

/// `c` is one of the ASCII digits `0` to `9`.
pub open spec fn is_digit(c: char) -> bool {
    '0' <= c && c <= '9'
}

/// The value of an ASCII digit.
pub open spec fn digit_value(c: char) -> int {
    c as int - '0' as int
}

/// The ASCII digit for a value below ten.
pub open spec fn digit_char(d: nat) -> char {
    (d + '0' as int) as char
}

/// Every character of `s` is an ASCII digit.
pub open spec fn all_digits(s: Seq<char>) -> bool {
    forall|i: int| 0 <= i < s.len() ==> is_digit(#[trigger] s[i])
}

/// The number that a string of digits denotes, most significant digit first.
pub open spec fn digits_value(s: Seq<char>) -> int
    decreases s.len(),
{
    if s.len() == 0 {
        0
    } else {
        digits_value(s.drop_last()) * 10 + digit_value(s.last())
    }
}

/// The value of an unsigned numeral: an optional `+` and at least one digit.
pub open spec fn unsigned_numeral(s: Seq<char>) -> Option<int> {
    if s.len() > 0 && s[0] == '+' {
        let d = s.drop_first();
        if d.len() > 0 && all_digits(d) {
            Some(digits_value(d))
        } else {
            None
        }
    } else if s.len() > 0 && all_digits(s) {
        Some(digits_value(s))
    } else {
        None
    }
}

/// The value of a signed numeral: an optional `+` or `-` and at least one digit.
pub open spec fn signed_numeral(s: Seq<char>) -> Option<int> {
    if s.len() > 0 && s[0] == '-' {
        let d = s.drop_first();
        if d.len() > 0 && all_digits(d) {
            Some(-digits_value(d))
        } else {
            None
        }
    } else {
        unsigned_numeral(s)
    }
}

/// What `str::parse` gives for an unsigned integer type whose largest value is `max`.
pub open spec fn parse_unsigned_spec(s: Seq<char>, max: int) -> Option<int> {
    match unsigned_numeral(s) {
        Some(v) => if v <= max { Some(v) } else { None },
        None => None,
    }
}

/// What `str::parse` gives for a signed integer type with range `min..=max`.
pub open spec fn parse_signed_spec(s: Seq<char>, min: int, max: int) -> Option<int> {
    match signed_numeral(s) {
        Some(v) => if min <= v <= max { Some(v) } else { None },
        None => None,
    }
}

/// The decimal digits of `n`, without leading zeros.
pub open spec fn decimal_digits(n: nat) -> Seq<char>
    decreases n,
{
    if n < 10 {
        seq![digit_char(n)]
    } else {
        decimal_digits(n / 10).push(digit_char(n % 10))
    }
}

/// The decimal numeral of `n`, with a `-` in front when it is negative.
pub open spec fn signed_decimal(n: int) -> Seq<char> {
    if n < 0 {
        seq!['-'] + decimal_digits((-n) as nat)
    } else {
        decimal_digits(n as nat)
    }
}

pub proof fn lemma_digits_value_push(s: Seq<char>, c: char)
    ensures
        digits_value(s.push(c)) == digits_value(s) * 10 + digit_value(c),
{
    assert(s.push(c).drop_last() =~= s);
}

pub proof fn lemma_digits_value_nonneg(s: Seq<char>)
    requires
        all_digits(s),
    ensures
        digits_value(s) >= 0,
    decreases s.len(),
{
    if s.len() > 0 {
        assert(all_digits(s.drop_last()));
        lemma_digits_value_nonneg(s.drop_last());
    }
}

/// A longer string of digits is worth at least as much as any of its prefixes.
pub proof fn lemma_digits_value_prefix(s: Seq<char>, i: int)
    requires
        all_digits(s),
        0 <= i <= s.len(),
    ensures
        digits_value(s.take(i)) <= digits_value(s),
    decreases s.len() - i,
{
    if i < s.len() {
        lemma_digits_value_prefix(s, i + 1);
        assert(s.take(i + 1).drop_last() =~= s.take(i));
        assert(all_digits(s.take(i)));
        lemma_digits_value_nonneg(s.take(i));
        assert(s.take(i + 1).last() == s[i]);
    } else {
        assert(s.take(i) =~= s);
    }
}

proof fn lemma_decimal_digits_shape(n: nat)
    ensures
        all_digits(decimal_digits(n)),
        decimal_digits(n).len() > 0,
        digits_value(decimal_digits(n)) == n,
    decreases n,
{
    if n < 10 {
        let s = decimal_digits(n);
        assert(s.drop_last() =~= Seq::<char>::empty());
        assert(digit_value(digit_char(n)) == n);
        assert(digits_value(s.drop_last()) == 0);
        assert(s.last() == digit_char(n));
        assert(digits_value(s) == digits_value(s.drop_last()) * 10 + digit_value(s.last()));
    } else {
        lemma_decimal_digits_shape(n / 10);
        lemma_digits_value_push(decimal_digits(n / 10), digit_char(n % 10));
        assert(digit_value(digit_char((n % 10) as nat)) == n % 10);
        assert(n == (n / 10) * 10 + n % 10) by (nonlinear_arith);
        assert(decimal_digits(n) == decimal_digits(n / 10).push(digit_char(n % 10)));
        assert(digits_value(decimal_digits(n)) == digits_value(decimal_digits(n / 10)) * 10 + n % 10);
        let s = decimal_digits(n);
        assert forall|i: int| 0 <= i < s.len() implies is_digit(#[trigger] s[i]) by {
            if i < s.len() - 1 {
                assert(s[i] == decimal_digits(n / 10)[i]);
            }
        }
    }
}

/// Reading back what was written gives the number that was written, for every
/// integer: `parse(n.to_string()) == n`.
pub proof fn lemma_signed_round_trip(n: int)
    ensures
        signed_numeral(signed_decimal(n)) == Some(n),
{
    if n < 0 {
        let m = (-n) as nat;
        lemma_decimal_digits_shape(m);
        let s = signed_decimal(n);
        assert(s.drop_first() =~= decimal_digits(m));
    } else {
        lemma_decimal_digits_shape(n as nat);
        let s = decimal_digits(n as nat);
        assert(is_digit(s[0]));
    }
}

/// The same round trip for the unsigned types: `parse(n.to_string()) == n`.
pub proof fn lemma_unsigned_round_trip(n: nat)
    ensures
        unsigned_numeral(decimal_digits(n)) == Some(n as int),
{
    lemma_decimal_digits_shape(n);
    assert(is_digit(decimal_digits(n)[0]));
}

/// The limit past which no integer type of the library reads a value.
const READ_LIMIT: u128 = 0x1_0000_0000_0000_0000;

/// Reads the digits `s[start..]`: `None` when one is not a digit or there are
/// none; otherwise the value, or `READ_LIMIT + 1` when the value exceeds `READ_LIMIT`.
fn read_digits(s: &str, start: usize) -> (r: Option<u128>)
    requires
        start <= s@.len(),
    ensures
        ({
            let d = s@.skip(start as int);
            match r {
                None => !(d.len() > 0 && all_digits(d)),
                Some(v) => d.len() > 0 && all_digits(d) && (if digits_value(d) <= READ_LIMIT {
                    v == digits_value(d)
                } else {
                    v == READ_LIMIT + 1
                }),
            }
        }),
{
    let n = s.unicode_len();
    let ghost d = s@.skip(start as int);
    if start >= n {
        return None;
    }
    let mut acc: u128 = 0;
    let mut over = false;
    let mut i = start;
    while i < n
        invariant
            start <= i <= n,
            n == s@.len(),
            d == s@.skip(start as int),
            all_digits(d.take(i - start)),
            !over ==> acc == digits_value(d.take(i - start)) && acc <= READ_LIMIT,
            over ==> digits_value(d.take(i - start)) > READ_LIMIT,
        decreases n - i,
    {
        let c = s.get_char(i);
        if !('0' <= c && c <= '9') {
            assert(d[i - start] == c);
            return None;
        }
        let dv = (c as u32 - '0' as u32) as u128;
        proof {
            assert(d.take(i + 1 - start) =~= d.take(i - start).push(c));
            lemma_digits_value_push(d.take(i - start), c);
            assert(all_digits(d.take(i + 1 - start)));
            lemma_digits_value_nonneg(d.take(i - start));
        }
        if !over {
            if acc > READ_LIMIT / 10 || acc * 10 + dv > READ_LIMIT {
                over = true;
            } else {
                acc = acc * 10 + dv;
            }
        }
        i = i + 1;
    }
    assert(d.take(n - start) =~= d);
    if over {
        Some(READ_LIMIT + 1)
    } else {
        Some(acc)
    }
}

/// Reads an unsigned numeral up to `max`, as `str::parse` does.
fn parse_unsigned_upto(s: &str, max: u64) -> (r: Option<u64>)
    ensures
        match r {
            Some(v) => parse_unsigned_spec(s@, max as int) == Some(v as int),
            None => parse_unsigned_spec(s@, max as int) is None,
        },
{
    let n = s.unicode_len();
    let start: usize = if n > 0 && s.get_char(0) == '+' { 1 } else { 0 };
    proof {
        if start == 1 {
            assert(s@.skip(1) =~= s@.drop_first());
        } else {
            assert(s@.skip(0) =~= s@);
            if n > 0 {
                assert(s@[0] != '+');
            }
        }
    }
    match read_digits(s, start) {
        None => None,
        Some(v) => {
            if v <= max as u128 {
                Some(v as u64)
            } else {
                None
            }
        },
    }
}

/// Reads a signed numeral within `min..=max`, as `str::parse` does.
fn parse_signed_within(s: &str, min: i64, max: i64) -> (r: Option<i64>)
    requires
        min <= 0 <= max,
    ensures
        match r {
            Some(v) => parse_signed_spec(s@, min as int, max as int) == Some(v as int),
            None => parse_signed_spec(s@, min as int, max as int) is None,
        },
{
    let n = s.unicode_len();
    if n > 0 && s.get_char(0) == '-' {
        proof {
            assert(s@.skip(1) =~= s@.drop_first());
        }
        match read_digits(s, 1) {
            None => None,
            Some(v) => {
                let lim = (0i128 - min as i128) as u128;
                if v <= lim {
                    Some((0i128 - v as i128) as i64)
                } else {
                    None
                }
            },
        }
    } else {
        let start: usize = if n > 0 && s.get_char(0) == '+' { 1 } else { 0 };
        proof {
            if start == 1 {
                assert(s@.skip(1) =~= s@.drop_first());
            } else {
                assert(s@.skip(0) =~= s@);
            }
        }
        match read_digits(s, start) {
            None => None,
            Some(v) => {
                if v <= max as u128 {
                    Some(v as i64)
                } else {
                    None
                }
            },
        }
    }
}

/// `s.parse::<u16>().ok()`.
pub fn parse_u16(s: &str) -> (r: Option<u16>)
    ensures
        match r {
            Some(v) => parse_unsigned_spec(s@, u16::MAX as int) == Some(v as int),
            None => parse_unsigned_spec(s@, u16::MAX as int) is None,
        },
{
    match parse_unsigned_upto(s, u16::MAX as u64) {
        Some(v) => Some(v as u16),
        None => None,
    }
}

/// `s.parse::<u32>().ok()`.
pub fn parse_u32(s: &str) -> (r: Option<u32>)
    ensures
        match r {
            Some(v) => parse_unsigned_spec(s@, u32::MAX as int) == Some(v as int),
            None => parse_unsigned_spec(s@, u32::MAX as int) is None,
        },
{
    match parse_unsigned_upto(s, u32::MAX as u64) {
        Some(v) => Some(v as u32),
        None => None,
    }
}

/// `s.parse::<u64>().ok()`.
pub fn parse_u64(s: &str) -> (r: Option<u64>)
    ensures
        match r {
            Some(v) => parse_unsigned_spec(s@, u64::MAX as int) == Some(v as int),
            None => parse_unsigned_spec(s@, u64::MAX as int) is None,
        },
{
    parse_unsigned_upto(s, u64::MAX)
}

/// `s.parse::<usize>().ok()`.
pub fn parse_usize(s: &str) -> (r: Option<usize>)
    ensures
        match r {
            Some(v) => parse_unsigned_spec(s@, usize::MAX as int) == Some(v as int),
            None => parse_unsigned_spec(s@, usize::MAX as int) is None,
        },
{
    match parse_unsigned_upto(s, usize::MAX as u64) {
        Some(v) => Some(v as usize),
        None => None,
    }
}

/// `s.parse::<i32>().ok()`.
pub fn parse_i32(s: &str) -> (r: Option<i32>)
    ensures
        match r {
            Some(v) => parse_signed_spec(s@, i32::MIN as int, i32::MAX as int) == Some(v as int),
            None => parse_signed_spec(s@, i32::MIN as int, i32::MAX as int) is None,
        },
{
    match parse_signed_within(s, i32::MIN as i64, i32::MAX as i64) {
        Some(v) => Some(v as i32),
        None => None,
    }
}

/// `s.parse::<i64>().ok()`.
pub fn parse_i64(s: &str) -> (r: Option<i64>)
    ensures
        match r {
            Some(v) => parse_signed_spec(s@, i64::MIN as int, i64::MAX as int) == Some(v as int),
            None => parse_signed_spec(s@, i64::MIN as int, i64::MAX as int) is None,
        },
{
    parse_signed_within(s, i64::MIN, i64::MAX)
}

/// Appends the decimal digits of `n` to `out`.
pub fn write_u64(n: u64, out: &mut String)
    ensures
        final(out)@ == old(out)@ + decimal_digits(n as nat),
    decreases n,
{
    if n >= 10 {
        write_u64(n / 10, out);
    }
    let d = (n % 10) as u8;
    let c = (d + 48u8) as char;
    assert(c == digit_char((n % 10) as nat));
    push_char(out, c);
    proof {
        if n >= 10 {
            assert(old(out)@ + decimal_digits(n as nat) =~= (old(out)@ + decimal_digits((n / 10) as nat)).push(c));
        } else {
            assert(decimal_digits(n as nat) =~= seq![c]);
        }
    }
}

/// Appends the decimal numeral of `n` to `out`, with `-` in front when negative.
pub fn write_i64(n: i64, out: &mut String)
    ensures
        final(out)@ == old(out)@ + signed_decimal(n as int),
{
    if n < 0 {
        push_char(out, '-');
        let m = (0i128 - n as i128) as u64;
        write_u64(m, out);
        assert(old(out)@ + signed_decimal(n as int) =~= old(out)@.push('-') + decimal_digits(m as nat));
    } else {
        write_u64(n as u64, out);
    }
}

/// `n.to_string()` for `u64`.
pub fn u64_to_string(n: u64) -> (s: String)
    ensures
        s@ == decimal_digits(n as nat),
{
    let mut s = String::new();
    write_u64(n, &mut s);
    assert(s@ =~= decimal_digits(n as nat));
    s
}

/// `n.to_string()` for `i64` (and, widened, for the smaller signed types).
pub fn i64_to_string(n: i64) -> (s: String)
    ensures
        s@ == signed_decimal(n as int),
{
    let mut s = String::new();
    write_i64(n, &mut s);
    assert(s@ =~= signed_decimal(n as int));
    s
}

} // verus!
