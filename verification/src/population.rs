//! Reading the population of each neighbourhood from the census table.

use vstd::prelude::*;
use crate::text::characters;

verus! {

/// The characters of a cell without the commas that separate thousands.
pub open spec fn without_separators(cell: Seq<char>) -> Seq<char> {
    cell.filter(|c: char| c != ',')
}

/// Whether a character is one of the decimal digits.
pub open spec fn is_digit(c: char) -> bool {
    '0' <= c <= '9'
}

/// The number that a decimal digit stands for.
pub open spec fn digit_value(c: char) -> nat {
    (c as u32 - '0' as u32) as nat
}

/// The number that a sequence of decimal digits stands for.
pub open spec fn decimal_value(digits: Seq<char>) -> nat
    decreases digits.len(),
{
    if digits.len() == 0 {
        0
    } else {
        10 * decimal_value(digits.drop_last()) + digit_value(digits.last())
    }
}

/// Whether every character is a decimal digit.
pub open spec fn all_digits(text: Seq<char>) -> bool {
    forall|i: int| 0 <= i < text.len() ==> is_digit(#[trigger] text[i])
}

/// What is left of a number's text after the plus sign that may lead it.
pub open spec fn after_sign(text: Seq<char>) -> Seq<char> {
    if text.len() > 0 && text[0] == '+' {
        text.drop_first()
    } else {
        text
    }
}

/// The number that a text stands for: decimal digits, at least one, with or
/// without a leading plus sign, and a value that 32 bits hold. Any other text
/// stands for no number.
pub open spec fn unsigned_value(text: Seq<char>) -> Option<u32> {
    let digits = after_sign(text);
    if digits.len() > 0 && all_digits(digits) && decimal_value(digits) <= u32::MAX {
        Some(decimal_value(digits) as u32)
    } else {
        None
    }
}

/// The population that a cell of the census table holds, if it holds one.
pub open spec fn population_of(cell: Seq<char>) -> Option<u32> {
    unsigned_value(without_separators(cell))
}

/// A number does not shrink when more digits follow it.
pub proof fn lemma_decimal_value_prefix(digits: Seq<char>, n: int)
    requires
        0 <= n <= digits.len(),
    ensures
        decimal_value(digits.take(n)) <= decimal_value(digits),
    decreases digits.len(),
{
    if n < digits.len() {
        lemma_decimal_value_prefix(digits.drop_last(), n);
        assert(digits.drop_last().take(n) =~= digits.take(n));
    } else {
        assert(digits.take(n) =~= digits);
    }
}

/// Removes the commas from a cell.
pub fn strip_separators(cell: &str) -> (text: Vec<char>)
    ensures
        text@ == without_separators(cell@),
{
    let chars = characters(cell);
    let mut text: Vec<char> = Vec::new();
    let mut i: usize = 0;
    while i < chars.len()
        invariant
            i <= chars.len(),
            chars@ == cell@,
            text@ == without_separators(chars@.take(i as int)),
        decreases chars.len() - i,
    {
        let c = chars[i];
        proof {
            assert(chars@.take(i + 1).drop_last() =~= chars@.take(i as int));
            reveal(Seq::filter);
        }
        if c != ',' {
            text.push(c);
        }
        i = i + 1;
    }
    assert(chars@.take(i as int) =~= chars@);
    text
}

/// Reads a text as a number.
pub fn parse_unsigned(text: &Vec<char>) -> (value: Option<u32>)
    ensures
        value == unsigned_value(text@),
{
    let start: usize = if text.len() > 0 && text[0] == '+' { 1 } else { 0 };
    let ghost digits = after_sign(text@);
    if start == text.len() {
        return None;
    }
    let mut value: u32 = 0;
    let mut i: usize = start;
    while i < text.len()
        invariant
            start <= i <= text.len(),
            digits == text@.skip(start as int),
            digits == after_sign(text@),
            all_digits(digits.take(i - start)),
            value == decimal_value(digits.take(i - start)),
        decreases text.len() - i,
    {
        let c = text[i];
        if c < '0' || c > '9' {
            assert(!is_digit(digits[i - start]));
            return None;
        }
        let d: u32 = c as u32 - '0' as u32;
        proof {
            assert(digits.take(i - start + 1).drop_last() =~= digits.take(i - start));
            lemma_decimal_value_prefix(digits, i - start + 1);
        }
        if value > (u32::MAX - d) / 10 {
            // The digits read so far already stand for more than 32 bits
            // hold, and what follows cannot make the number smaller.
            assert(decimal_value(digits.take(i - start + 1)) == 10 * value + d);
            return None;
        }
        value = value * 10 + d;
        i = i + 1;
    }
    assert(digits.take(i - start) =~= digits);
    Some(value)
}

/// Reads the population that a cell of the census table holds. A cell that
/// holds no number gives `None`.
pub fn parse_population(cell: &str) -> (population: Option<u32>)
    ensures
        population == population_of(cell@),
{
    let text = strip_separators(cell);
    parse_unsigned(&text)
}

} // verus!
