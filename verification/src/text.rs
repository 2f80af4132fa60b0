//! Small text utilities shared by the other modules.

use vstd::prelude::*;
use vstd::std_specs::iter::IteratorSpec;

verus! {

/// Whether two texts hold the same characters.
pub fn same_text(a: &str, b: &str) -> (r: bool)
    ensures
        r == (a@ == b@),
{
    let x = a.as_bytes();
    let y = b.as_bytes();
    proof {
        vstd::utf8::encode_utf8_decode_utf8(a@);
        vstd::utf8::encode_utf8_decode_utf8(b@);
    }
    if x.len() != y.len() {
        return false;
    }
    let mut i: usize = 0;
    while i < x.len()
        invariant
            i <= x.len(),
            x.len() == y.len(),
            x@ == vstd::utf8::encode_utf8(a@),
            y@ == vstd::utf8::encode_utf8(b@),
            forall|j: int| 0 <= j < i ==> x@[j] == y@[j],
        decreases x.len() - i,
    {
        if x[i] != y[i] {
            return false;
        }
        i = i + 1;
    }
    proof {
        assert(x@ =~= y@);
    }
    true
}

/// The character of a decimal digit from 0 to 9.
pub open spec fn digit_char(digit: int) -> char {
    seq!['0', '1', '2', '3', '4', '5', '6', '7', '8', '9'][digit]
}

/// `n` in decimal, without leading zeros.
pub open spec fn decimal_text(n: nat) -> Seq<char>
    decreases n,
{
    if n < 10 {
        seq![digit_char(n as int)]
    } else {
        decimal_text(n / 10).push(digit_char((n % 10) as int))
    }
}

/// The digits `digits`, which stand least significant first, as characters
/// with the most significant first.
pub open spec fn reversed_digits(digits: Seq<u8>) -> Seq<char> {
    Seq::new(digits.len(), |i: int| digit_char(digits[digits.len() - 1 - i] as int))
}

/// The text of one decimal digit.
fn digit_text(digit: u8) -> (text: &'static str)
    requires
        digit < 10,
    ensures
        text@ == seq![digit_char(digit as int)],
{
    proof {
        reveal_strlit("0");
        reveal_strlit("1");
        reveal_strlit("2");
        reveal_strlit("3");
        reveal_strlit("4");
        reveal_strlit("5");
        reveal_strlit("6");
        reveal_strlit("7");
        reveal_strlit("8");
        reveal_strlit("9");
    }
    let text = if digit == 0 {
        "0"
    } else if digit == 1 {
        "1"
    } else if digit == 2 {
        "2"
    } else if digit == 3 {
        "3"
    } else if digit == 4 {
        "4"
    } else if digit == 5 {
        "5"
    } else if digit == 6 {
        "6"
    } else if digit == 7 {
        "7"
    } else if digit == 8 {
        "8"
    } else {
        "9"
    };
    text
}

/// Appends the digits `digits`, which stand least significant first, to
/// `text` with the most significant first.
fn append_reversed(text: &mut String, digits: &Vec<u8>)
    requires
        forall|j: int| 0 <= j < digits@.len() ==> digits@[j] < 10,
    ensures
        final(text)@ == old(text)@ + reversed_digits(digits@),
{
    let ghost start = text@;
    let ghost all = reversed_digits(digits@);
    let mut left: usize = digits.len();
    while left > 0
        invariant
            left <= digits@.len(),
            forall|j: int| 0 <= j < digits@.len() ==> digits@[j] < 10,
            all == reversed_digits(digits@),
            text@ == start + all.take(digits@.len() - left),
        decreases left,
    {
        left = left - 1;
        text.append(digit_text(digits[left]));
    }
}

/// Writes `n` in decimal, without leading zeros.
pub fn u128_to_text(n: u128) -> (text: String)
    ensures
        text@ == decimal_text(n as nat),
{
    let mut digits: Vec<u8> = Vec::new();
    let mut rest: u128 = n;
    while rest >= 10
        invariant
            decimal_text(n as nat) == decimal_text(rest as nat) + reversed_digits(digits@),
            forall|j: int| 0 <= j < digits@.len() ==> digits@[j] < 10,
        decreases rest,
    {
        digits.push((rest % 10) as u8);
        rest = rest / 10;
    }
    let mut text = String::new();
    text.append(digit_text(rest as u8));
    append_reversed(&mut text, &digits);
    text
}

/// The lowest `width` decimal digits of `n`, most significant first, with
/// zeros where `n` has fewer digits.
pub open spec fn padded_digits(n: nat, width: nat) -> Seq<char>
    decreases width,
{
    if width == 0 {
        Seq::empty()
    } else {
        padded_digits(n / 10, (width - 1) as nat).push(digit_char((n % 10) as int))
    }
}

/// Appends the lowest `width` decimal digits of `n` to `text`, with zeros
/// where `n` has fewer digits.
pub fn append_padded(text: &mut String, n: u128, width: usize)
    ensures
        final(text)@ == old(text)@ + padded_digits(n as nat, width as nat),
{
    let mut digits: Vec<u8> = Vec::new();
    let mut rest: u128 = n;
    while digits.len() < width
        invariant
            digits@.len() <= width,
            padded_digits(n as nat, width as nat) == padded_digits(
                rest as nat,
                (width - digits@.len()) as nat,
            ) + reversed_digits(digits@),
            forall|j: int| 0 <= j < digits@.len() ==> digits@[j] < 10,
        decreases width - digits@.len(),
    {
        digits.push((rest % 10) as u8);
        rest = rest / 10;
    }
    append_reversed(text, &digits);
}

/// `s` with each backslash removed and the character after it kept as it
/// is, or `None` if `s` ends in a backslash that nothing follows.
pub open spec fn without_slashes(s: Seq<char>) -> Option<Seq<char>>
    decreases s.len(),
{
    if s.len() == 0 {
        Some(Seq::empty())
    } else if s[0] != '\\' {
        match without_slashes(s.skip(1)) {
            Some(rest) => Some(seq![s[0]] + rest),
            None => None,
        }
    } else if s.len() == 1 {
        None
    } else {
        match without_slashes(s.skip(2)) {
            Some(rest) => Some(seq![s[1]] + rest),
            None => None,
        }
    }
}

/// Appends one character with `String::push`.
///
/// Stated without proof: the text afterwards is the text before with `c` at
/// its end.
#[verifier::external_body]
fn push_char(text: &mut String, c: char)
    ensures
        final(text)@ == old(text)@.push(c),
{
    text.push(c)
}

/// Removes the backslashes that escape a character and keeps the escaped
/// characters. A text that ends in a lone backslash gives `None`.
pub fn strip_slashes(s: &str) -> (r: Option<String>)
    ensures
        match r {
            Some(text) => without_slashes(s@) == Some(text@),
            None => without_slashes(s@) is None,
        },
{
    broadcast use vstd::string::group_string_axioms;

    let mut n = String::new();
    let mut chars = s.chars();
    let ghost mut taken: int = 0;
    loop
        invariant
            0 <= taken <= s@.len(),
            chars.obeys_prophetic_iter_laws(),
            chars.remaining() == s@.skip(taken),
            match without_slashes(s@.skip(taken)) {
                Some(rest) => without_slashes(s@) == Some(n@ + rest),
                None => without_slashes(s@) is None,
            },
        decreases s@.len() - taken,
    {
        let ghost here = s@.skip(taken);
        match chars.next() {
            None => {
                return Some(n);
            },
            Some(c) => {
                assert(here.skip(1) =~= s@.skip(taken + 1));
                if c == '\\' {
                    match chars.next() {
                        None => {
                            return None;
                        },
                        Some(escaped) => {
                            push_char(&mut n, escaped);
                            assert(here.skip(2) =~= s@.skip(taken + 2));
                            proof {
                                taken = taken + 2;
                            }
                        },
                    }
                } else {
                    push_char(&mut n, c);
                    proof {
                        taken = taken + 1;
                    }
                }
            },
        }
    }
}

} // verus!
