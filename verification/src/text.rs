//! Decimal rendering of integers and small helpers on strings.

use vstd::prelude::*;
use vstd::string::*;

verus! {

/// `String::push` appends the character to the end of the string.
pub assume_specification[ String::push ](text: &mut String, ch: char)
    ensures
        final(text)@ == old(text)@.push(ch),
;

/// The text without every occurrence of the character `c`.
pub open spec fn without(text: Seq<char>, c: char) -> Seq<char>
    decreases text.len(),
{
    if text.len() == 0 {
        Seq::empty()
    } else if text.last() == c {
        without(text.drop_last(), c)
    } else {
        without(text.drop_last(), c).push(text.last())
    }
}

/// Appends `text` to `out`, leaving out every occurrence of the character
/// `c`.
pub fn push_without(out: &mut String, text: &str, c: char)
    ensures
        final(out)@ == old(out)@ + without(text@, c),
{
    let n: usize = text.unicode_len();
    let mut i: usize = 0;
    while i < n
        invariant
            i <= n,
            n == text@.len(),
            out@ == old(out)@ + without(text@.take(i as int), c),
        decreases n - i,
    {
        let next = text.get_char(i);
        proof {
            assert(text@.take(i + 1).drop_last() =~= text@.take(i as int));
        }
        if next != c {
            out.push(next);
        }
        i = i + 1;
    }
    assert(text@.take(n as int) =~= text@);
}

/// The character that stands for one decimal digit.
pub open spec fn digit_char(d: int) -> char
    recommends
        0 <= d < 10,
{
    if d == 0 {
        '0'
    } else if d == 1 {
        '1'
    } else if d == 2 {
        '2'
    } else if d == 3 {
        '3'
    } else if d == 4 {
        '4'
    } else if d == 5 {
        '5'
    } else if d == 6 {
        '6'
    } else if d == 7 {
        '7'
    } else if d == 8 {
        '8'
    } else {
        '9'
    }
}

/// The decimal digits of `n`, most significant first, without leading zeros.
pub open spec fn decimal(n: nat) -> Seq<char>
    decreases n,
{
    if n < 10 {
        seq![digit_char(n as int)]
    } else {
        decimal(n / 10).push(digit_char((n % 10) as int))
    }
}

/// The decimal form of a signed integer: a minus sign before the digits of a
/// negative number.
pub open spec fn signed_decimal(n: int) -> Seq<char> {
    if n < 0 {
        seq!['-'] + decimal((-n) as nat)
    } else {
        decimal(n as nat)
    }
}

/// The decimal digits of `n`, with zeros in front until `width` characters
/// are reached. A number with more digits than `width` is left as it is.
pub open spec fn zero_padded(n: nat, width: nat) -> Seq<char> {
    let digits = decimal(n);
    if digits.len() >= width {
        digits
    } else {
        Seq::new((width - digits.len()) as nat, |i: int| '0') + digits
    }
}

/// A number below ten to the power `k` has at most `k` digits, and one with
/// more than one digit is at least ten.
pub proof fn lemma_decimal_len(n: nat)
    ensures
        decimal(n).len() >= 1,
        n < 10 <==> decimal(n).len() == 1,
        10 <= n < 100 <==> decimal(n).len() == 2,
        n >= 100 <==> decimal(n).len() >= 3,
    decreases n,
{
    if n >= 10 {
        lemma_decimal_len(n / 10);
    }
}

fn digit_str(d: u64) -> (s: &'static str)
    requires
        d < 10,
    ensures
        s@ == seq![digit_char(d as int)],
{
    proof {
        reveal_strlit("0");
        reveal_strlit("1");
        reveal_strlit("2");
        reveal_strlit("3");
        reveal_strlit("4");
        reveal_strlit("5");
        reveal_strlit("6");
        reveal_strlit("7");
        reveal_strlit("8");
        reveal_strlit("9");
    }
    if d == 0 {
        "0"
    } else if d == 1 {
        "1"
    } else if d == 2 {
        "2"
    } else if d == 3 {
        "3"
    } else if d == 4 {
        "4"
    } else if d == 5 {
        "5"
    } else if d == 6 {
        "6"
    } else if d == 7 {
        "7"
    } else if d == 8 {
        "8"
    } else {
        "9"
    }
}

/// Appends the decimal digits of `n` to `out`.
pub fn push_decimal(out: &mut String, n: u64)
    ensures
        final(out)@ == old(out)@ + decimal(n as nat),
    decreases n,
{
    if n >= 10 {
        push_decimal(out, n / 10);
    }
    out.append(digit_str(n % 10));
}

/// Appends the decimal form of a signed integer to `out`.
pub fn push_signed_decimal(out: &mut String, n: i64)
    ensures
        final(out)@ == old(out)@ + signed_decimal(n as int),
{
    if n < 0 {
        proof {
            reveal_strlit("-");
        }
        out.append("-");
        let magnitude: u64 = (-(n as i128)) as u64;
        push_decimal(out, magnitude);
    } else {
        push_decimal(out, n as u64);
    }
}

/// The decimal form of a signed integer as a string of its own.
pub fn signed_decimal_string(n: i64) -> (s: String)
    ensures
        s@ == signed_decimal(n as int),
{
    let mut s = String::new();
    push_signed_decimal(&mut s, n);
    s
}

/// A copy of a text that may be missing.
pub fn clone_text(text: &Option<String>) -> (copy: Option<String>)
    ensures
        copy.deep_view() == text.deep_view(),
{
    match text {
        Some(text) => Some(text.clone()),
        None => None,
    }
}

/// The value of a decimal digit, or `None` for any other character.
pub open spec fn digit_value(c: char) -> Option<int> {
    if c == '0' {
        Some(0int)
    } else if c == '1' {
        Some(1int)
    } else if c == '2' {
        Some(2int)
    } else if c == '3' {
        Some(3int)
    } else if c == '4' {
        Some(4int)
    } else if c == '5' {
        Some(5int)
    } else if c == '6' {
        Some(6int)
    } else if c == '7' {
        Some(7int)
    } else if c == '8' {
        Some(8int)
    } else if c == '9' {
        Some(9int)
    } else {
        None
    }
}

/// The number that a sequence of decimal digits stands for, or `None` where
/// one of the characters is no digit. The empty sequence stands for zero.
pub open spec fn digits_value(digits: Seq<char>) -> Option<int>
    decreases digits.len(),
{
    if digits.len() == 0 {
        Some(0int)
    } else {
        match (digits_value(digits.drop_last()), digit_value(digits.last())) {
            (Some(high), Some(low)) => Some(high * 10 + low),
            _ => None,
        }
    }
}

/// The 64-bit integer that a text stands for: an optional sign, `+` or `-`,
/// and then one digit or more, nothing before and nothing after. A text of
/// another shape stands for none, and neither does a number outside the
/// 64-bit range.
pub open spec fn parsed_decimal(text: Seq<char>) -> Option<int> {
    if text.len() == 0 {
        None
    } else {
        let negative = text[0] == '-';
        let digits = if text[0] == '-' || text[0] == '+' {
            text.skip(1)
        } else {
            text
        };
        if digits.len() == 0 {
            None
        } else {
            match digits_value(digits) {
                None => None,
                Some(magnitude) => {
                    let number = if negative {
                        -magnitude
                    } else {
                        magnitude
                    };
                    if i64::MIN <= number <= i64::MAX {
                        Some(number)
                    } else {
                        None
                    }
                },
            }
        }
    }
}

/// The `Display` text of the error with which `str::parse::<i64>` refuses a
/// text.
pub uninterp spec fn parse_diagnostic(text: Seq<char>) -> Seq<char>;

/// Reads a text as a 64-bit integer with `str::parse::<i64>`; of a text
/// that is refused, the error's `Display` text comes back.
///
/// The documentation of the parser says which texts it takes: an optional
/// `+` or `-` sign followed by only digits, with anything else, and a number
/// too large or too small for the type, being an error. The contract says
/// so, and names the diagnostic.
#[verifier::external_body]
pub(crate) fn parse_i64(text: &str) -> (parsed: Result<i64, String>)
    ensures
        match parsed {
            Ok(n) => parsed_decimal(text@) == Some(n as int),
            Err(diagnostic) => parsed_decimal(text@) is None && diagnostic@ == parse_diagnostic(
                text@,
            ),
        },
{
    match text.parse::<i64>() {
        Ok(n) => Ok(n),
        Err(error) => Err(error.to_string()),
    }
}

/// Reading the decimal form of a 64-bit integer gives the integer back.
pub proof fn lemma_parse_signed_decimal(n: int)
    requires
        i64::MIN <= n <= i64::MAX,
    ensures
        parsed_decimal(signed_decimal(n)) == Some(n),
{
    let magnitude: nat = if n < 0 {
        (-n) as nat
    } else {
        n as nat
    };
    lemma_decimal_digits(magnitude);
    lemma_decimal_len(magnitude);
    if n < 0 {
        assert(signed_decimal(n).skip(1) =~= decimal(magnitude));
    } else {
        lemma_decimal_starts_with_digit(magnitude);
    }
}

/// The digits of a number stand for the number.
pub proof fn lemma_decimal_digits(n: nat)
    ensures
        digits_value(decimal(n)) == Some(n as int),
    decreases n,
{
    if n < 10 {
        assert(digits_value(decimal(n).drop_last()) == Some(0int));
    } else {
        lemma_decimal_digits(n / 10);
        assert(decimal(n).drop_last() =~= decimal(n / 10));
    }
}

/// The decimal form of a number starts with a digit, not with a sign.
pub proof fn lemma_decimal_starts_with_digit(n: nat)
    ensures
        decimal(n).len() >= 1,
        digit_value(decimal(n)[0]) is Some,
    decreases n,
{
    if n >= 10 {
        lemma_decimal_starts_with_digit(n / 10);
    }
}

} // verus!
