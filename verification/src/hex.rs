//! Lower-case hexadecimal rendering of bytes.

use vstd::prelude::*;
use vstd::string::*;

verus! {

/// The sixteen digits of lower-case hexadecimal, in order of value.
pub open spec fn hex_digits() -> Seq<char> {
    seq!['0', '1', '2', '3', '4', '5', '6', '7', '8', '9', 'a', 'b', 'c', 'd', 'e', 'f']
}

/// The value of the digit at position `i` of the rendering of `bytes`:
/// the high half of byte `i / 2` at an even position, its low half at an odd one.
pub open spec fn half_byte(bytes: Seq<u8>, i: int) -> int {
    if i % 2 == 0 {
        bytes[i / 2] as int / 16
    } else {
        bytes[i / 2] as int % 16
    }
}

/// The rendering of `bytes`: two digits for each byte, in the order of the bytes.
pub open spec fn lower_hex(bytes: Seq<u8>) -> Seq<char> {
    Seq::new(2 * bytes.len(), |i: int| hex_digits()[half_byte(bytes, i)])
}

/// Whether `c` is a digit of lower-case hexadecimal.
pub open spec fn is_hex_digit(c: char) -> bool {
    ('0' <= c && c <= '9') || ('a' <= c && c <= 'f')
}

/// A rendering has two digits for each byte, and nothing but digits.
pub proof fn lemma_lower_hex_digits(bytes: Seq<u8>)
    ensures
        lower_hex(bytes).len() == 2 * bytes.len(),
        forall|i: int|
            0 <= i < lower_hex(bytes).len() ==> is_hex_digit(#[trigger] lower_hex(bytes)[i]),
{
    assert forall|i: int| 0 <= i < lower_hex(bytes).len() implies is_hex_digit(
        #[trigger] lower_hex(bytes)[i],
    ) by {
        let half = half_byte(bytes, i);
        assert(0 <= i / 2 < bytes.len());
        assert(0 <= half < 16);
    }
}

/// The text of the one digit whose value is `value`.
fn digit_text(value: u8) -> (text: &'static str)
    requires
        value < 16,
    ensures
        text@ == seq![hex_digits()[value as int]],
{
    let digits = "0123456789abcdef";
    proof {
        reveal_strlit("0123456789abcdef");
        assert(digits@ =~= hex_digits());
    }
    let from: usize = value as usize;
    let text = digits.substring_ascii(from, from + 1);
    assert(text@ =~= seq![hex_digits()[value as int]]);
    text
}

/// Renders `bytes` as lower-case hexadecimal.
pub fn to_lower_hex(bytes: &[u8]) -> (text: String)
    ensures
        text@ == lower_hex(bytes@),
{
    let mut text = String::new();
    let mut i: usize = 0;
    while i < bytes.len()
        invariant
            i <= bytes.len(),
            text@.len() == 2 * i,
            forall|j: int|
                0 <= j < 2 * i ==> text@[j] == hex_digits()[#[trigger] half_byte(bytes@, j)],
        decreases bytes.len() - i,
    {
        let byte: u8 = bytes[i];
        text.append(digit_text(byte / 16));
        text.append(digit_text(byte % 16));
        i += 1;
    }
    assert(text@ =~= lower_hex(bytes@));
    text
}

} // verus!
