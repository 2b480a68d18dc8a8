//! Lower-case hexadecimal text, as a specification, with the encoder of
//! `data_encoding` bound to it.

use vstd::prelude::*;

verus! {

/// The character that stands for a four-bit value: `0` to `9`, then `a` to `f`.
pub open spec fn hex_digit(value: int) -> char {
    if value < 10 {
        ((48 + value) as u8) as char
    } else {
        ((87 + value) as u8) as char
    }
}

/// The hexadecimal text of `bytes`: two digits for each byte, the high half first.
pub open spec fn hex_lower(bytes: Seq<u8>) -> Seq<char> {
    Seq::new(
        2 * bytes.len(),
        |i: int|
            if i % 2 == 0 {
                hex_digit(bytes[i / 2] as int / 16)
            } else {
                hex_digit(bytes[i / 2] as int % 16)
            },
    )
}

/// `data_encoding::HEXLOWER.encode`: the lower-case hexadecimal text of the
/// bytes. The encoder refuses inputs longer than `usize::MAX / 512` bytes.
#[verifier::external_body]
pub(crate) fn encode_hex(bytes: &[u8]) -> (text: String)
    requires
        bytes@.len() <= usize::MAX / 512,
    ensures
        text@ == hex_lower(bytes@),
{
    data_encoding::HEXLOWER.encode(bytes)
}

} // verus!
