//! The length hint: the byte count that a request may declare up front.

use vstd::prelude::*;
use vstd::string::*;

verus! {

/// The byte `+`, which may stand before the digits.
pub const PLUS: u8 = 43;

/// The byte `0`.
pub const ZERO: u8 = 48;

/// The byte `9`.
pub const NINE: u8 = 57;

/// Whether `byte` is an ASCII decimal digit.
pub open spec fn is_digit(byte: u8) -> bool {
    ZERO <= byte <= NINE
}

/// Whether every byte of `digits` is an ASCII decimal digit.
pub open spec fn all_digits(digits: Seq<u8>) -> bool {
    forall|i: int| 0 <= i < digits.len() ==> is_digit(#[trigger] digits[i])
}

/// The number that a sequence of ASCII decimal digits denotes.
pub open spec fn decimal_value(digits: Seq<u8>) -> nat
    decreases digits.len(),
{
    if digits.len() == 0 {
        0
    } else {
        decimal_value(digits.drop_last()) * 10 + (digits.last() - ZERO) as nat
    }
}

/// The digits of `text`: what follows one leading `+`, or all of it.
pub open spec fn digits_of(text: Seq<u8>) -> Seq<u8> {
    if text.len() > 0 && text[0] == PLUS {
        text.drop_first()
    } else {
        text
    }
}

/// The byte count that `text` declares: an optional `+`, then one or more
/// decimal digits whose value fits in `usize`. Anything else declares nothing.
pub open spec fn parsed_length(text: Seq<u8>) -> Option<usize> {
    let digits = digits_of(text);
    if digits.len() > 0 && all_digits(digits) && decimal_value(digits) <= usize::MAX {
        Some(decimal_value(digits) as usize)
    } else {
        None
    }
}

/// The length hint of a request whose length header reads `header`, if it
/// has one.
pub open spec fn length_hint(header: Option<&str>) -> Option<usize> {
    match header {
        Some(text) => parsed_length(text.spec_bytes()),
        None => None,
    }
}

/// A prefix of a digit sequence denotes no more than the whole.
pub proof fn lemma_prefix_value(digits: Seq<u8>, n: int)
    requires
        0 <= n <= digits.len(),
        all_digits(digits),
    ensures
        decimal_value(digits.take(n)) <= decimal_value(digits),
    decreases digits.len(),
{
    if n == digits.len() {
        assert(digits.take(n) =~= digits);
    } else {
        assert(digits.drop_last().take(n) =~= digits.take(n));
        lemma_prefix_value(digits.drop_last(), n);
        assert(is_digit(digits[digits.len() - 1]));
    }
}

/// Reads the byte count that a length header declares. Returns `None` where
/// the text is not an optional `+` followed by decimal digits, or where the
/// number does not fit in `usize`.
pub fn parse_length(text: &str) -> (hint: Option<usize>)
    ensures
        hint == parsed_length(text.spec_bytes()),
{
    let bytes = text.as_bytes();
    let start: usize = if bytes.len() > 0 && bytes[0] == PLUS {
        1
    } else {
        0
    };
    if start == bytes.len() {
        return None;
    }
    let ghost digits = digits_of(bytes@);
    assert(digits =~= bytes@.subrange(start as int, bytes@.len() as int));
    let mut value: usize = 0;
    let mut i: usize = start;
    while i < bytes.len()
        invariant
            start <= i <= bytes@.len(),
            bytes@ == text.spec_bytes(),
            digits == digits_of(bytes@),
            digits == bytes@.subrange(start as int, bytes@.len() as int),
            all_digits(digits.take(i - start)),
            value == decimal_value(digits.take(i - start)),
        decreases bytes@.len() - i,
    {
        let byte = bytes[i];
        assert(byte == digits[i - start]);
        if byte < ZERO || byte > NINE {
            assert(!is_digit(digits[i - start]));
            return None;
        }
        let ghost seen = digits.take(i - start + 1);
        assert(seen.drop_last() =~= digits.take(i - start));
        assert(seen.last() == byte);
        assert(all_digits(seen)) by {
            assert forall|j: int| 0 <= j < seen.len() implies is_digit(#[trigger] seen[j]) by {
                if j < i - start {
                    assert(seen[j] == digits.take(i - start)[j]);
                }
            }
        }
        assert(decimal_value(seen) == value * 10 + (byte - ZERO));
        let scaled = match value.checked_mul(10) {
            Some(scaled) => scaled,
            None => {
                proof {
                    if all_digits(digits) {
                        lemma_prefix_value(digits, i - start + 1);
                    }
                }
                return None;
            },
        };
        let digit: usize = (byte - ZERO) as usize;
        value = match scaled.checked_add(digit) {
            Some(sum) => sum,
            None => {
                proof {
                    if all_digits(digits) {
                        lemma_prefix_value(digits, i - start + 1);
                    }
                }
                return None;
            },
        };
        i += 1;
    }
    assert(digits.take(i - start) =~= digits);
    Some(value)
}

/// The length hint of a request: what its length header declares, where it
/// has one that can be read.
pub fn read_length_hint(header: Option<&str>) -> (hint: Option<usize>)
    ensures
        hint == length_hint(header),
{
    match header {
        Some(text) => parse_length(text),
        None => None,
    }
}

} // verus!
