//! Text: the comparison of names, and numbers in decimal digits.

use vstd::prelude::*;
use vstd::string::StringExecFns;

verus! {

/// Whether two strings hold the same characters.
pub fn same_text(a: &str, b: &str) -> (same: bool)
    ensures
        same == (a@ == b@),
{
    let left: String = a.to_owned();
    let right: String = b.to_owned();
    left == right
}

/// The decimal digit for a number below ten.
pub open spec fn digit_text(digit: int) -> Seq<char> {
    if digit == 0 {
        "0"@
    } else if digit == 1 {
        "1"@
    } else if digit == 2 {
        "2"@
    } else if digit == 3 {
        "3"@
    } else if digit == 4 {
        "4"@
    } else if digit == 5 {
        "5"@
    } else if digit == 6 {
        "6"@
    } else if digit == 7 {
        "7"@
    } else if digit == 8 {
        "8"@
    } else {
        "9"@
    }
}

/// A number in decimal digits, without leading zeros.
pub open spec fn decimal_text(number: u8) -> Seq<char> {
    if number < 10 {
        digit_text(number as int)
    } else if number < 100 {
        digit_text((number / 10) as int) + digit_text((number % 10) as int)
    } else {
        digit_text((number / 100) as int) + digit_text(((number / 10) % 10) as int) + digit_text(
            (number % 10) as int,
        )
    }
}

/// The number that a text of decimal digits stands for.
pub open spec fn decimal_value(text: Seq<char>) -> int
    decreases text.len(),
{
    if text.len() == 0 {
        0
    } else {
        10 * decimal_value(text.drop_last()) + (text.last() as int - '0' as int)
    }
}

/// The decimal digit for a number below ten.
fn digit(value: u8) -> (text: &'static str)
    requires
        value <= 9,
    ensures
        text@ == digit_text(value as int),
{
    match value {
        0 => "0",
        1 => "1",
        2 => "2",
        3 => "3",
        4 => "4",
        5 => "5",
        6 => "6",
        7 => "7",
        8 => "8",
        _ => "9",
    }
}

/// A number in decimal digits, without leading zeros.
pub fn decimal(number: u8) -> (text: String)
    ensures
        text@ == decimal_text(number),
{
    if number < 10 {
        String::from_str(digit(number))
    } else if number < 100 {
        let mut text = String::from_str(digit(number / 10));
        text.append(digit(number % 10));
        text
    } else {
        let mut text = String::from_str(digit(number / 100));
        text.append(digit((number / 10) % 10));
        text.append(digit(number % 10));
        text
    }
}

/// A decimal digit is one character, which stands for its number.
proof fn lemma_digit_text(digit: int)
    requires
        0 <= digit <= 9,
    ensures
        digit_text(digit).len() == 1,
        digit_text(digit)[0] as int - '0' as int == digit,
{
    reveal_strlit("0");
    reveal_strlit("1");
    reveal_strlit("2");
    reveal_strlit("3");
    reveal_strlit("4");
    reveal_strlit("5");
    reveal_strlit("6");
    reveal_strlit("7");
    reveal_strlit("8");
    reveal_strlit("9");
}

/// The decimal digits of a number read back as that number, and begin with no zero unless
/// the number is zero.
pub proof fn lemma_decimal_text_reads_back(number: u8)
    ensures
        decimal_value(decimal_text(number)) == number,
        1 <= decimal_text(number).len() <= 3,
        number > 0 ==> decimal_text(number)[0] != '0',
{
    let ones = digit_text((number % 10) as int);
    let tens = digit_text(((number / 10) % 10) as int);
    let hundreds = digit_text((number / 100) as int);
    lemma_digit_text((number % 10) as int);
    lemma_digit_text(((number / 10) % 10) as int);
    lemma_digit_text((number / 100) as int);
    lemma_digit_text(0);
    reveal_with_fuel(decimal_value, 4);
    if number < 10 {
        assert(ones.drop_last().len() == 0);
    } else if number < 100 {
        let text = tens + ones;
        assert(text.drop_last() =~= tens);
        assert(tens.drop_last().len() == 0);
    } else {
        let text = hundreds + tens + ones;
        assert(text.drop_last() =~= hundreds + tens);
        assert((hundreds + tens).drop_last() =~= hundreds);
        assert(hundreds.drop_last().len() == 0);
    }
}

} // verus!
