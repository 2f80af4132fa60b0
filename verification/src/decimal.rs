//! Fixed-point decimal numbers, as the exchange sends prices and quantities.
//!
//! A `Decimal` counts units of `10^-18`. Text is accepted in the form
//! `-?D+(.D+)?` with at most twenty digits before the point and at most
//! eighteen after it, so every accepted number is held exactly.

use vstd::prelude::*;
use crate::error::DecodeError;
use crate::text::{append_padded, decimal_text, padded_digits, u128_to_text};

verus! {

/// Digits kept after the decimal point.
pub const FRACTION_DIGITS: usize = 18;

/// Most digits accepted before the decimal point.
pub const INTEGER_DIGITS: usize = 20;

/// Ten to the power of `n`.
pub open spec fn pow10(n: nat) -> int
    decreases n,
{
    if n == 0 {
        1
    } else {
        10 * pow10((n - 1) as nat)
    }
}

/// Whether `c` is one of the characters `0` to `9`.
pub open spec fn is_digit(c: char) -> bool {
    '0' <= c && c <= '9'
}

/// The number that the digit `c` stands for.
pub open spec fn digit_value(c: char) -> int {
    c as int - '0' as int
}

/// Whether every character of `s` is a digit.
pub open spec fn all_digits(s: Seq<char>) -> bool {
    forall|i: int| 0 <= i < s.len() ==> is_digit(#[trigger] s[i])
}

/// The number written by the digits `s`, most significant first.
pub open spec fn digits_value(s: Seq<char>) -> int
    decreases s.len(),
{
    if s.len() == 0 {
        0
    } else {
        10 * digits_value(s.drop_last()) + digit_value(s.last())
    }
}

/// Index of the first `.` in `s`, or the length of `s` if it holds none.
pub open spec fn first_dot(s: Seq<char>) -> int
    decreases s.len(),
{
    if s.len() == 0 || s[0] == '.' {
        0
    } else {
        1 + first_dot(s.drop_first())
    }
}

/// The units that the text `s` denotes, or `None` if `s` is not of the form
/// `-?D+(.D+)?` within the digit limits.
pub open spec fn parse_units(s: Seq<char>) -> Option<int> {
    let negative = s.len() > 0 && s[0] == '-';
    let body = if negative { s.drop_first() } else { s };
    let dot = first_dot(body);
    let whole = body.take(dot);
    let has_fraction = dot < body.len();
    let fraction = if has_fraction { body.skip(dot + 1) } else { Seq::<char>::empty() };
    if 1 <= whole.len() <= INTEGER_DIGITS && all_digits(whole) && (has_fraction ==> 1
        <= fraction.len()) && fraction.len() <= FRACTION_DIGITS && all_digits(fraction) {
        let magnitude = digits_value(whole) * pow10(FRACTION_DIGITS as nat) + digits_value(fraction)
            * pow10((FRACTION_DIGITS - fraction.len()) as nat);
        Some(if negative { -magnitude } else { magnitude })
    } else {
        None
    }
}

/// A decimal number held as a count of units of `10^-18`.
#[derive(Clone, Copy, Debug, PartialEq, Eq, PartialOrd, Ord, Hash, Structural)]
pub struct Decimal {
    pub units: i128,
}

/// The decimal that the text `s` denotes, if it denotes one.
pub open spec fn decimal_of(s: Seq<char>) -> Option<Decimal> {
    match parse_units(s) {
        Some(units) => Some(Decimal { units: units as i128 }),
        None => None,
    }
}

impl View for Decimal {
    type V = int;

    open spec fn view(&self) -> int {
        self.units as int
    }
}

/// The text of a count of units: a `-` if the count is negative, the whole
/// part without leading zeros, a dot, and the eighteen digits of the
/// fraction.
pub open spec fn units_text(units: int) -> Seq<char> {
    let magnitude = (if units < 0 { -units } else { units }) as nat;
    let sign = if units < 0 { seq!['-'] } else { Seq::<char>::empty() };
    let whole = (magnitude / (pow10(FRACTION_DIGITS as nat) as nat)) as nat;
    let fraction = (magnitude % (pow10(FRACTION_DIGITS as nat) as nat)) as nat;
    sign + decimal_text(whole) + seq!['.'] + padded_digits(fraction, FRACTION_DIGITS as nat)
}

/// Bounds and the position of the dot that fix `first_dot`.
proof fn lemma_first_dot(s: Seq<char>)
    ensures
        0 <= first_dot(s) <= s.len(),
        first_dot(s) < s.len() ==> s[first_dot(s)] == '.',
        forall|j: int| 0 <= j < first_dot(s) ==> s[j] != '.',
    decreases s.len(),
{
    if s.len() == 0 || s[0] == '.' {
    } else {
        let t = s.drop_first();
        lemma_first_dot(t);
        assert forall|j: int| 0 <= j < first_dot(s) implies s[j] != '.' by {
            if j > 0 {
                assert(s[j] == t[j - 1]);
            }
        }
    }
}

/// An index before which no dot stands, and which holds a dot or ends the
/// text, is `first_dot`.
proof fn lemma_first_dot_is(s: Seq<char>, k: int)
    requires
        0 <= k <= s.len(),
        forall|j: int| 0 <= j < k ==> s[j] != '.',
        k < s.len() ==> s[k] == '.',
    ensures
        first_dot(s) == k,
{
    lemma_first_dot(s);
}

/// The two powers of ten that bound a `Decimal`.
proof fn lemma_pow10_values()
    ensures
        pow10(0) == 1,
        pow10(18) == 1_000_000_000_000_000_000,
        pow10(20) == 100_000_000_000_000_000_000,
{
    reveal_with_fuel(pow10, 21);
}

/// `pow10` grows with its argument.
proof fn lemma_pow10_monotonic(a: nat, b: nat)
    requires
        a <= b,
    ensures
        0 < pow10(a) <= pow10(b),
    decreases b,
{
    if a < b {
        lemma_pow10_monotonic(a, (b - 1) as nat);
    } else if b > 0 {
        lemma_pow10_monotonic((a - 1) as nat, (b - 1) as nat);
    }
}

/// The decimal text of a number holds digits only, at least one, and
/// denotes the number.
proof fn lemma_decimal_text(n: nat)
    ensures
        decimal_text(n).len() >= 1,
        all_digits(decimal_text(n)),
        digits_value(decimal_text(n)) == n,
    decreases n,
{
    if n < 10 {
        assert(decimal_text(n).drop_last() =~= Seq::<char>::empty());
        assert(digits_value(Seq::<char>::empty()) == 0);
    } else {
        lemma_decimal_text(n / 10);
        assert(decimal_text(n).drop_last() =~= decimal_text(n / 10));
    }
}

/// A number below the `digits`-th power of ten has at most `digits` digits.
proof fn lemma_decimal_text_len(n: nat, digits: nat)
    requires
        digits >= 1,
        n < pow10(digits),
    ensures
        decimal_text(n).len() <= digits,
    decreases n,
{
    if n >= 10 {
        if digits == 1 {
            assert(pow10(1) == 10) by {
                reveal_with_fuel(pow10, 2);
            }
        } else {
            lemma_decimal_text_len(n / 10, (digits - 1) as nat);
        }
    }
}

/// The padded text of a number that fits its width holds that many digits
/// and denotes the number.
proof fn lemma_padded_digits(n: nat, width: nat)
    requires
        n < pow10(width),
    ensures
        padded_digits(n, width).len() == width,
        all_digits(padded_digits(n, width)),
        digits_value(padded_digits(n, width)) == n,
    decreases width,
{
    if width > 0 {
        lemma_padded_digits(n / 10, (width - 1) as nat);
        assert(padded_digits(n, width).drop_last() =~= padded_digits(
            n / 10,
            (width - 1) as nat,
        ));
    }
}

/// Reading the text of a count of units gives the count back, for every
/// count that a text can denote: those within twenty digits before the
/// point.
pub proof fn lemma_text_round_trip(units: int)
    requires
        -pow10(38) < units < pow10(38),
    ensures
        parse_units(units_text(units)) == Some(units),
{
    lemma_pow10_values();
    assert(pow10(38) == 100_000_000_000_000_000_000_000_000_000_000_000_000) by {
        reveal_with_fuel(pow10, 39);
    }
    let magnitude = (if units < 0 { -units } else { units }) as nat;
    let whole_number = (magnitude / (pow10(18) as nat)) as nat;
    let fraction_number = (magnitude % (pow10(18) as nat)) as nat;
    let whole = decimal_text(whole_number);
    let fraction = padded_digits(fraction_number, 18);
    let s = units_text(units);
    lemma_decimal_text(whole_number);
    lemma_decimal_text_len(whole_number, 20);
    lemma_padded_digits(fraction_number, 18);
    let negative = s.len() > 0 && s[0] == '-';
    let body = if negative { s.drop_first() } else { s };
    lemma_first_dot_is(body, whole.len() as int);
    assert(body.take(whole.len() as int) =~= whole);
    assert(body.skip(whole.len() as int + 1) =~= fraction);
}

/// Text with a character outside ASCII denotes no decimal.
proof fn lemma_not_ascii_not_decimal(s: Seq<char>)
    requires
        !vstd::utf8::is_ascii_chars(s),
    ensures
        parse_units(s) is None,
{
    let i = choose|i: int| 0 <= i < s.len() && !('\0' <= #[trigger] s[i] <= '\u{7f}');
    let c = s[i];
    let negative = s.len() > 0 && s[0] == '-';
    let body = if negative { s.drop_first() } else { s };
    let at = if negative { i - 1 } else { i };
    lemma_first_dot(body);
    let dot = first_dot(body);
    if at < dot {
        assert(body.take(dot)[at] == c);
    } else {
        assert(body.skip(dot + 1)[at - dot - 1] == c);
    }
}

/// The digit at position `i` of `text`, if a digit stands there.
fn digit_at(text: &str, i: usize) -> (r: Option<u8>)
    requires
        text.is_ascii(),
        i < text@.len(),
    ensures
        match r {
            Some(v) => is_digit(text@[i as int]) && v == digit_value(text@[i as int]),
            None => !is_digit(text@[i as int]),
        },
{
    let b = text.get_ascii(i);
    if 48 <= b && b <= 57 {
        Some(b - 48)
    } else {
        None
    }
}

/// The number written by `text[from..to]`, if that range holds digits only.
fn read_digits(text: &str, from: usize, to: usize) -> (r: Option<i128>)
    requires
        text.is_ascii(),
        from <= to <= text@.len(),
        to - from <= INTEGER_DIGITS,
    ensures
        match r {
            Some(v) => {
                &&& all_digits(text@.subrange(from as int, to as int))
                &&& v == digits_value(text@.subrange(from as int, to as int))
                &&& 0 <= v < pow10((to - from) as nat)
            },
            None => !all_digits(text@.subrange(from as int, to as int)),
        },
{
    let mut acc: i128 = 0;
    let mut i: usize = from;
    proof {
        lemma_pow10_values();
    }
    while i < to
        invariant
            text.is_ascii(),
            from <= i <= to <= text@.len(),
            to - from <= INTEGER_DIGITS,
            all_digits(text@.subrange(from as int, i as int)),
            acc == digits_value(text@.subrange(from as int, i as int)),
            0 <= acc < pow10((i - from) as nat),
            pow10(20) == 100_000_000_000_000_000_000,
        decreases to - i,
    {
        let ghost before = text@.subrange(from as int, i as int);
        let ghost after = text@.subrange(from as int, i + 1);
        proof {
            assert(after.drop_last() =~= before);
            assert(after.last() == text@[i as int]);
            lemma_pow10_monotonic((i - from) as nat, 20);
        }
        match digit_at(text, i) {
            Some(v) => {
                acc = acc * 10 + v as i128;
            },
            None => {
                return None;
            },
        }
        i = i + 1;
    }
    Some(acc)
}

impl Decimal {
    /// The decimal with the given count of units of `10^-18`.
    pub fn from_units(units: i128) -> (d: Decimal)
        ensures
            d@ == units,
    {
        Decimal { units }
    }

    /// Writes the decimal as text: a `-` if it is negative, the whole part,
    /// a dot, and the eighteen digits of the fraction.
    pub fn to_text(&self) -> (text: String)
        ensures
            text@ == units_text(self@),
    {
        proof {
            lemma_pow10_values();
        }
        let units = self.units;
        let magnitude: u128 = if units < 0 {
            (-(units + 1)) as u128 + 1
        } else {
            units as u128
        };
        let mut text = String::new();
        if units < 0 {
            proof {
                reveal_strlit("-");
            }
            text.append("-");
        }
        let whole = u128_to_text(magnitude / 1_000_000_000_000_000_000);
        text.append(whole.as_str());
        proof {
            reveal_strlit(".");
        }
        text.append(".");
        append_padded(&mut text, magnitude % 1_000_000_000_000_000_000, FRACTION_DIGITS);
        text
    }

    /// Reads a decimal from text of the form `-?D+(.D+)?`.
    ///
    /// Succeeds exactly on the texts for which `parse_units` gives a number,
    /// and then returns that number.
    pub fn parse(text: &str) -> (r: Result<Decimal, DecodeError>)
        ensures
            match r {
                Ok(d) => parse_units(text@) == Some(d@) && decimal_of(text@) == Some(d),
                Err(e) => {
                    &&& parse_units(text@) is None
                    &&& decimal_of(text@) is None
                    &&& e == DecodeError::InvalidDecimal
                },
            },
    {
        if !text.is_ascii() {
            proof {
                lemma_not_ascii_not_decimal(text@);
            }
            return Err(DecodeError::InvalidDecimal);
        }
        proof {
            lemma_pow10_values();
        }
        let n = text.as_bytes().len();
        let negative = n > 0 && text.get_ascii(0) == 45;
        let start: usize = if negative { 1 } else { 0 };
        let ghost body = if negative { text@.drop_first() } else { text@ };
        let mut dot: usize = start;
        while dot < n && text.get_ascii(dot) != 46
            invariant
                text.is_ascii(),
                n == text@.len(),
                start <= dot <= n,
                body == text@.subrange(start as int, n as int),
                forall|j: int| 0 <= j < dot - start ==> body[j] != '.',
            decreases n - dot,
        {
            dot = dot + 1;
        }
        proof {
            lemma_first_dot_is(body, dot - start);
            assert(body.take(dot - start) =~= text@.subrange(start as int, dot as int));
        }
        let has_fraction = dot < n;
        let fraction_start: usize = if has_fraction { dot + 1 } else { n };
        let ghost fraction = if has_fraction {
            body.skip(dot - start + 1)
        } else {
            Seq::<char>::empty()
        };
        assert(fraction =~= text@.subrange(fraction_start as int, n as int));
        if dot - start < 1 || dot - start > INTEGER_DIGITS {
            return Err(DecodeError::InvalidDecimal);
        }
        if has_fraction && n - fraction_start < 1 {
            return Err(DecodeError::InvalidDecimal);
        }
        if n - fraction_start > FRACTION_DIGITS {
            return Err(DecodeError::InvalidDecimal);
        }
        let whole = match read_digits(text, start, dot) {
            Some(v) => v,
            None => {
                return Err(DecodeError::InvalidDecimal);
            },
        };
        let part = match read_digits(text, fraction_start, n) {
            Some(v) => v,
            None => {
                return Err(DecodeError::InvalidDecimal);
            },
        };
        let mut scaled: i128 = part;
        let mut places: usize = n - fraction_start;
        while places < FRACTION_DIGITS
            invariant
                n - fraction_start <= places <= FRACTION_DIGITS,
                0 <= part,
                scaled == part * pow10((places - (n - fraction_start)) as nat),
                0 <= scaled < pow10(places as nat),
                pow10(18) == 1_000_000_000_000_000_000,
            decreases FRACTION_DIGITS - places,
        {
            proof {
                lemma_pow10_monotonic(places as nat, 18);
                assert(part * (10 * pow10((places - (n - fraction_start)) as nat)) == 10 * (part
                    * pow10((places - (n - fraction_start)) as nat))) by (nonlinear_arith);
            }
            scaled = scaled * 10;
            places = places + 1;
        }
        proof {
            lemma_pow10_monotonic((dot - start) as nat, 20);
        }
        let magnitude: i128 = whole * 1_000_000_000_000_000_000 + scaled;
        let units: i128 = if negative { -magnitude } else { magnitude };
        Ok(Decimal { units })
    }
}

} // verus!
