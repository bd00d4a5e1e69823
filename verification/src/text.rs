//! Reading labels and numbers out of text fields.

use vstd::prelude::*;
use vstd::string::{StrSliceExecFns, StringExecFns};

verus! {

/// Whether two strings hold the same characters.
pub fn same_text(left: &str, right: &str) -> (same: bool)
    ensures
        same == (left@ == right@),
{
    let length: usize = left.unicode_len();
    if right.unicode_len() != length {
        return false;
    }
    let mut position: usize = 0;
    while position < length
        invariant
            length == left@.len(),
            length == right@.len(),
            position <= length,
            forall|i: int| 0 <= i < position ==> left@[i] == right@[i],
        decreases length - position,
    {
        if left.get_char(position) != right.get_char(position) {
            return false;
        }
        position += 1;
    }
    assert(left@ =~= right@);
    true
}

/// The value of an ASCII decimal digit, if `c` is one.
pub open spec fn digit_value(c: char) -> Option<nat> {
    if '0' <= c && c <= '9' {
        Some((c as nat - '0' as nat) as nat)
    } else {
        None
    }
}

/// The number that a string of ASCII decimal digits writes, most significant
/// digit first; `None` where a character is no such digit. The empty string
/// writes zero.
pub open spec fn decimal_value(digits: Seq<char>) -> Option<nat>
    decreases digits.len(),
{
    if digits.len() == 0 {
        Some(0)
    } else {
        match (decimal_value(digits.drop_last()), digit_value(digits.last())) {
            (Some(front), Some(unit)) => Some(front * 10 + unit),
            _ => None,
        }
    }
}

/// Reads an unsigned decimal number of at most nine ASCII digits.
///
/// Longer strings, the empty string and strings with any other character are
/// turned down.
pub fn parse_decimal(text: &str) -> (number: Option<u32>)
    ensures
        number is Some <==> 0 < text@.len() <= 9 && decimal_value(text@) is Some,
        number is Some ==> Some(number.unwrap() as nat) == decimal_value(text@),
{
    let length: usize = text.unicode_len();
    if length == 0 || length > 9 {
        return None;
    }
    let mut value: u32 = 0;
    let mut position: usize = 0;
    while position < length
        invariant
            length == text@.len(),
            0 < length <= 9,
            position <= length,
            decimal_value(text@.take(position as int)) == Some(value as nat),
            value < pow10(position as nat),
        decreases length - position,
    {
        let c: char = text.get_char(position);
        proof {
            let next = text@.take(position + 1);
            assert(next.drop_last() =~= text@.take(position as int));
            assert(next.last() == c);
            lemma_pow10_bounds(position as nat);
        }
        if c < '0' || c > '9' {
            proof {
                lemma_decimal_prefix(text@, position + 1);
            }
            return None;
        }
        let unit: u32 = c as u32 - '0' as u32;
        value = value * 10 + unit;
        position += 1;
    }
    assert(text@.take(length as int) =~= text@);
    Some(value)
}

/// Ten to the `exponent`.
pub open spec fn pow10(exponent: nat) -> nat
    decreases exponent,
{
    if exponent == 0 {
        1
    } else {
        10 * pow10((exponent - 1) as nat)
    }
}

proof fn lemma_pow10_bounds(exponent: nat)
    requires
        exponent <= 9,
    ensures
        pow10(exponent) <= 1_000_000_000,
        exponent < 9 ==> pow10(exponent) <= 100_000_000,
    decreases exponent,
{
    reveal_with_fuel(pow10, 11);
}

/// A string writes a number only if each of its prefixes does.
proof fn lemma_decimal_prefix(digits: Seq<char>, length: int)
    requires
        0 <= length <= digits.len(),
        decimal_value(digits.take(length)) is None,
    ensures
        decimal_value(digits) is None,
    decreases digits.len(),
{
    if length < digits.len() {
        assert(digits.drop_last().take(length) =~= digits.take(length));
        lemma_decimal_prefix(digits.drop_last(), length);
    } else {
        assert(digits.take(length) =~= digits);
    }
}

/// The ASCII digit for a number below ten.
pub open spec fn digit_char(digit: nat) -> char {
    if digit == 0 {
        '0'
    } else if digit == 1 {
        '1'
    } else if digit == 2 {
        '2'
    } else if digit == 3 {
        '3'
    } else if digit == 4 {
        '4'
    } else if digit == 5 {
        '5'
    } else if digit == 6 {
        '6'
    } else if digit == 7 {
        '7'
    } else if digit == 8 {
        '8'
    } else {
        '9'
    }
}

/// A number written in ASCII decimal digits, without leading zeros.
pub open spec fn decimal_text(number: nat) -> Seq<char>
    decreases number,
{
    if number < 10 {
        seq![digit_char(number)]
    } else {
        decimal_text(number / 10).push(digit_char(number % 10))
    }
}

/// The ASCII digit for a number below ten, as a string.
fn digit_text(digit: u64) -> (text: &'static str)
    requires
        digit < 10,
    ensures
        text@ == seq![digit_char(digit as nat)],
{
    proof {
        reveal_strlit("0");
        reveal_strlit("1");
        reveal_strlit("2");
        reveal_strlit("3");
        reveal_strlit("4");
        reveal_strlit("5");
        reveal_strlit("6");
        reveal_strlit("7");
        reveal_strlit("8");
        reveal_strlit("9");
    }
    let text = if digit == 0 {
        "0"
    } else if digit == 1 {
        "1"
    } else if digit == 2 {
        "2"
    } else if digit == 3 {
        "3"
    } else if digit == 4 {
        "4"
    } else if digit == 5 {
        "5"
    } else if digit == 6 {
        "6"
    } else if digit == 7 {
        "7"
    } else if digit == 8 {
        "8"
    } else {
        "9"
    };
    assert(text@ =~= seq![digit_char(digit as nat)]);
    text
}

/// Writes a number in ASCII decimal digits, without leading zeros.
pub fn to_decimal(number: u64) -> (text: String)
    ensures
        text@ == decimal_text(number as nat),
    decreases number,
{
    if number < 10 {
        String::from_str(digit_text(number))
    } else {
        let front = to_decimal(number / 10);
        let text = front.concat(digit_text(number % 10));
        assert(text@ =~= decimal_text(number as nat));
        text
    }
}

/// Reading a number back from the digits it was written in gives the number.
pub proof fn lemma_decimal_round_trip(number: nat)
    ensures
        decimal_value(decimal_text(number)) == Some(number),
    decreases number,
{
    if number < 10 {
        let text = decimal_text(number);
        assert(text.drop_last() =~= Seq::<char>::empty());
        assert(decimal_value(text.drop_last()) == Some(0nat));
        assert(digit_value(text.last()) == Some(number));
    } else {
        lemma_decimal_round_trip(number / 10);
        let text = decimal_text(number);
        assert(text.drop_last() =~= decimal_text(number / 10));
        assert(digit_value(text.last()) == Some(number % 10));
    }
}

} // verus!
