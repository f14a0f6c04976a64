//! Addresses as the front end writes them: hexadecimal, without a prefix.

use vstd::prelude::*;
use crate::error::DebuggerError;

verus! {

/// The value of the hexadecimal digit with this code point, if it is one.
/// Both cases of the letters count.
pub open spec fn digit_of(code: int) -> Option<nat> {
    if 0x30 <= code <= 0x39 {
        Some((code - 0x30) as nat)
    } else if 0x61 <= code <= 0x66 {
        Some((code - 0x61 + 10) as nat)
    } else if 0x41 <= code <= 0x46 {
        Some((code - 0x41 + 10) as nat)
    } else {
        None
    }
}

/// Whether every character is a hexadecimal digit.
pub open spec fn is_hex_digits(digits: Seq<char>) -> bool {
    forall|i: int| 0 <= i < digits.len() ==> digit_of(#[trigger] digits[i] as int) is Some
}

/// The number that a sequence of hexadecimal digits writes, the first digit
/// being the most significant. The empty sequence writes zero.
pub open spec fn hex_value(digits: Seq<char>) -> nat
    decreases digits.len(),
{
    if digits.len() == 0 {
        0
    } else {
        16 * hex_value(digits.drop_last()) + digit_of(digits.last() as int).unwrap()
    }
}

/// The digits of an address text: the text itself, or what follows one
/// leading plus sign.
pub open spec fn address_digits(text: Seq<char>) -> Seq<char> {
    if text.len() > 0 && text[0] == '+' {
        text.subrange(1, text.len() as int)
    } else {
        text
    }
}

/// The address that a text writes: at least one hexadecimal digit, nothing
/// else but for one leading plus sign, and a value that fits 64 bits.
pub open spec fn spec_parse_address(text: Seq<char>) -> Option<u64> {
    let digits = address_digits(text);
    if digits.len() > 0 && is_hex_digits(digits) && hex_value(digits) <= u64::MAX {
        Some(hex_value(digits) as u64)
    } else {
        None
    }
}

/// The digits read so far never write more than all of them do.
proof fn lemma_prefix_value(digits: Seq<char>, k: int)
    requires
        0 <= k <= digits.len(),
    ensures
        hex_value(digits.subrange(0, k)) <= hex_value(digits),
    decreases digits.len(),
{
    if k == digits.len() {
        assert(digits.subrange(0, k) == digits);
    } else {
        lemma_prefix_value(digits.drop_last(), k);
        assert(digits.drop_last().subrange(0, k) == digits.subrange(0, k));
    }
}

/// Reading one more digit: sixteen times what was read, plus the digit.
proof fn lemma_next_digit(digits: Seq<char>, k: int)
    requires
        0 <= k < digits.len(),
    ensures
        hex_value(digits.subrange(0, k + 1)) == 16 * hex_value(digits.subrange(0, k)) + digit_of(
            digits[k] as int,
        ).unwrap(),
{
    let longer = digits.subrange(0, k + 1);
    assert(longer.drop_last() == digits.subrange(0, k));
    assert(longer.last() == digits[k]);
}

/// The value of the hexadecimal digit that this byte writes in ASCII.
fn hex_digit(byte: u8) -> (digit: Option<u8>)
    ensures
        match digit {
            Some(value) => digit_of(byte as int) == Some(value as nat),
            None => digit_of(byte as int) is None,
        },
{
    if 0x30 <= byte && byte <= 0x39 {
        Some(byte - 0x30)
    } else if 0x61 <= byte && byte <= 0x66 {
        Some(byte - 0x61 + 10)
    } else if 0x41 <= byte && byte <= 0x46 {
        Some(byte - 0x41 + 10)
    } else {
        None
    }
}

/// Parses an address written in base 16.
///
/// The text is accepted exactly when `spec_parse_address` gives it a value:
/// an empty text, a character that is no hexadecimal digit (a `0x` prefix,
/// a blank, a minus sign) and a number beyond 64 bits are all
/// `InvalidAddress`.
pub fn parse_address(text: &str) -> (parsed: Result<u64, DebuggerError>)
    ensures
        parsed == match spec_parse_address(text@) {
            Some(address) => Ok::<u64, DebuggerError>(address),
            None => Err(DebuggerError::InvalidAddress),
        },
{
    let ghost digits = address_digits(text@);
    if !text.is_ascii() {
        proof {
            let i = choose|i: int|
                0 <= i < text@.len() && !('\0' <= #[trigger] text@[i] <= '\u{7f}');
            if text@[0] == '+' {
                assert(digits[i - 1] == text@[i]);
            } else {
                assert(digits[i] == text@[i]);
            }
        }
        return Err(DebuggerError::InvalidAddress);
    }
    let bytes = text.as_bytes();
    proof {
        vstd::string::is_ascii_spec_bytes(text);
    }
    let n = bytes.len();
    let start: usize = if n > 0 && bytes[0] == 0x2b { 1 } else { 0 };
    if start == n {
        return Err(DebuggerError::InvalidAddress);
    }
    let mut value: u64 = 0;
    let mut i: usize = start;
    while i < n
        invariant
            start <= i <= n,
            n == text@.len(),
            n == bytes@.len(),
            text.is_ascii(),
            forall|k: int| 0 <= k < n ==> bytes@[k] == #[trigger] text@[k] as u8,
            digits == address_digits(text@),
            digits.len() == n - start,
            forall|k: int| 0 <= k < digits.len() ==> #[trigger] digits[k] == text@[k + start],
            is_hex_digits(digits.subrange(0, i - start)),
            value == hex_value(digits.subrange(0, i - start)),
        decreases n - i,
    {
        let byte = bytes[i];
        proof {
            assert(digits[i - start] == text@[i as int]);
            assert(byte as int == digits[i - start] as int);
            lemma_next_digit(digits, i - start);
            lemma_prefix_value(digits, i - start + 1);
        }
        let digit = match hex_digit(byte) {
            Some(digit) => digit,
            None => { return Err(DebuggerError::InvalidAddress); },
        };
        let scaled = match value.checked_mul(16) {
            Some(scaled) => scaled,
            None => { return Err(DebuggerError::InvalidAddress); },
        };
        value = match scaled.checked_add(digit as u64) {
            Some(sum) => sum,
            None => { return Err(DebuggerError::InvalidAddress); },
        };
        proof {
            let longer = digits.subrange(0, i - start + 1);
            assert forall|k: int| 0 <= k < longer.len() implies digit_of(
                #[trigger] longer[k] as int,
            ) is Some by {
                if k < i - start {
                    assert(longer[k] == digits.subrange(0, i - start)[k]);
                }
            }
        }
        i = i + 1;
    }
    proof {
        assert(digits.subrange(0, n - start) == digits);
    }
    Ok(value)
}

} // verus!
