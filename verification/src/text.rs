//! Numbers and pieces of text.

use vstd::prelude::*;
use vstd::string::StringExecFns;

verus! {

/// The character of a decimal digit.
pub open spec fn digit_char(digit: int) -> char {
    if digit == 0 {
        '0'
    } else if digit == 1 {
        '1'
    } else if digit == 2 {
        '2'
    } else if digit == 3 {
        '3'
    } else if digit == 4 {
        '4'
    } else if digit == 5 {
        '5'
    } else if digit == 6 {
        '6'
    } else if digit == 7 {
        '7'
    } else if digit == 8 {
        '8'
    } else {
        '9'
    }
}

/// A number in decimal, without leading zeros.
pub open spec fn decimal_text(number: nat) -> Seq<char>
    decreases number,
{
    if number < 10 {
        seq![digit_char(number as int)]
    } else {
        decimal_text(number / 10).push(digit_char((number % 10) as int))
    }
}

/// A number in decimal as ASCII bytes, without leading zeros.
pub open spec fn decimal_ascii(number: nat) -> Seq<u8>
    decreases number,
{
    if number < 10 {
        seq![(48 + number) as u8]
    } else {
        decimal_ascii(number / 10).push((48 + number % 10) as u8)
    }
}

/// The value of ASCII digits.
pub open spec fn ascii_value(digits: Seq<u8>) -> nat
    decreases digits.len(),
{
    if digits.len() == 0 {
        0
    } else {
        (10 * ascii_value(digits.drop_last()) + (digits.last() - 48)) as nat
    }
}

fn digit_str(digit: usize) -> (text: &'static str)
    requires
        digit < 10,
    ensures
        text@ == seq![digit_char(digit as int)],
{
    proof {
        reveal_strlit("0");
        reveal_strlit("1");
        reveal_strlit("2");
        reveal_strlit("3");
        reveal_strlit("4");
        reveal_strlit("5");
        reveal_strlit("6");
        reveal_strlit("7");
        reveal_strlit("8");
        reveal_strlit("9");
    }
    match digit {
        0 => "0",
        1 => "1",
        2 => "2",
        3 => "3",
        4 => "4",
        5 => "5",
        6 => "6",
        7 => "7",
        8 => "8",
        _ => "9",
    }
}

/// Writes a number in decimal.
pub fn decimal(number: usize) -> (text: String)
    ensures
        text@ == decimal_text(number as nat),
    decreases number,
{
    if number < 10 {
        digit_str(number).to_owned()
    } else {
        let mut text = decimal(number / 10);
        text.append(digit_str(number % 10));
        assert(text@ =~= decimal_text(number as nat));
        text
    }
}

/// Writes a number in decimal as ASCII bytes.
pub fn decimal_bytes(number: usize) -> (bytes: Vec<u8>)
    ensures
        bytes@ == decimal_ascii(number as nat),
    decreases number,
{
    let mut bytes: Vec<u8> = if number < 10 {
        Vec::new()
    } else {
        decimal_bytes(number / 10)
    };
    bytes.push(48 + (number % 10) as u8);
    assert(bytes@ =~= decimal_ascii(number as nat));
    bytes
}

/// Joins two pieces of text.
pub fn joined(left: &str, right: &str) -> (text: String)
    ensures
        text@ == left@ + right@,
{
    let mut text = left.to_owned();
    text.append(right);
    text
}

/// Joins three pieces of text.
pub fn joined3(first: &str, second: &str, third: &str) -> (text: String)
    ensures
        text@ == first@ + second@ + third@,
{
    let mut text = first.to_owned();
    text.append(second);
    text.append(third);
    text
}

/// Joins five pieces of text.
pub fn joined5(first: &str, second: &str, third: &str, fourth: &str, fifth: &str) -> (text: String)
    ensures
        text@ == first@ + second@ + third@ + fourth@ + fifth@,
{
    let mut text = first.to_owned();
    text.append(second);
    text.append(third);
    text.append(fourth);
    text.append(fifth);
    text
}

/// A number can be read back from its digits.
pub proof fn decimal_reads_back(number: nat)
    ensures
        ascii_value(decimal_ascii(number)) == number,
        forall|i: int|
            0 <= i < decimal_ascii(number).len() ==> 48 <= #[trigger] decimal_ascii(number)[i]
                <= 57,
        decimal_ascii(number).len() > 0,
    decreases number,
{
    let digits = decimal_ascii(number);
    if number < 10 {
        assert(digits.drop_last() =~= Seq::<u8>::empty());
        assert(ascii_value(digits.drop_last()) == 0);
    } else {
        decimal_reads_back(number / 10);
        assert(digits.drop_last() =~= decimal_ascii(number / 10));
    }
}

/// The last digit of a number is its remainder by ten, and the digits before it
/// are those of the quotient.
pub proof fn numbers_are_written_in_decimal(
    number: usize,
    texts: (String, String),
    bytes: (Vec<u8>, Vec<u8>),
    quotient: usize,
)
    requires
        quotient == number / 10,
        call_ensures(decimal, (number,), texts.0),
        call_ensures(decimal, (quotient,), texts.1),
        call_ensures(decimal_bytes, (number,), bytes.0),
        call_ensures(decimal_bytes, (quotient,), bytes.1),
    ensures
        texts.0@.last() as int == 48 + number % 10,
        bytes.0@.last() == 48 + number % 10,
        number >= 10 ==> texts.0@.drop_last() == texts.1@ && bytes.0@.drop_last() == bytes.1@,
        number < 10 ==> texts.0@.len() == 1 && bytes.0@.len() == 1,
{
}

/// Text is joined in the order in which it is given.
pub proof fn texts_are_joined_in_order(
    pieces: (&str, &str, &str, &str, &str),
    texts: (String, String, String),
)
    requires
        call_ensures(joined, (pieces.0, pieces.1), texts.0),
        call_ensures(joined3, (pieces.0, pieces.1, pieces.2), texts.1),
        call_ensures(joined5, (pieces.0, pieces.1, pieces.2, pieces.3, pieces.4), texts.2),
    ensures
        texts.0@ == pieces.0@ + pieces.1@,
        texts.1@ == pieces.0@ + pieces.1@ + pieces.2@,
        texts.2@ == pieces.0@ + pieces.1@ + pieces.2@ + pieces.3@ + pieces.4@,
{
}

} // verus!
