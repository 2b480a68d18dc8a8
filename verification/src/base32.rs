//! Base 32 without padding (RFC 4648, upper-case alphabet), as a specification,
//! with the encoder and decoder of `data_encoding` bound to it.

use vstd::prelude::*;
use vstd::string::StringSliceAdditionalSpecFns;

verus! {

/// The error of `data_encoding`'s decoder.
#[verifier::external_type_specification]
#[verifier::external_body]
pub struct ExDecodeError(data_encoding::DecodeError);

/// The weight of bit `t` of a byte, counted from the most significant bit.
pub open spec fn byte_weight(t: int) -> int {
    if t == 0 {
        128
    } else if t == 1 {
        64
    } else if t == 2 {
        32
    } else if t == 3 {
        16
    } else if t == 4 {
        8
    } else if t == 5 {
        4
    } else if t == 6 {
        2
    } else {
        1
    }
}

/// Bit `t` of the byte `x`, counted from the most significant bit.
pub open spec fn bit_of(x: u8, t: int) -> int {
    (x as int / byte_weight(t)) % 2
}

/// Bit `k` of `bytes`, read from the most significant bit of the first byte on.
/// Past the last byte every bit is zero.
pub open spec fn bit_at(bytes: Seq<u8>, k: int) -> int {
    if 0 <= k < 8 * bytes.len() {
        bit_of(bytes[k / 8], k % 8)
    } else {
        0
    }
}

/// The value of the `i`-th group of five bits of `bytes`.
pub open spec fn quintet(bytes: Seq<u8>, i: int) -> int {
    16 * bit_at(bytes, 5 * i) + 8 * bit_at(bytes, 5 * i + 1) + 4 * bit_at(bytes, 5 * i + 2) + 2
        * bit_at(bytes, 5 * i + 3) + bit_at(bytes, 5 * i + 4)
}

/// The character that stands for a five-bit value: `A` to `Z`, then `2` to `7`.
pub open spec fn symbol(value: int) -> char {
    if value < 26 {
        ((65 + value) as u8) as char
    } else {
        ((24 + value) as u8) as char
    }
}

/// The number of characters that encode `len` bytes.
pub open spec fn encoded_len(len: nat) -> nat {
    ((8 * len + 4) / 5) as nat
}

/// The base 32 text of `bytes`.
pub open spec fn base32(bytes: Seq<u8>) -> Seq<char> {
    Seq::new(encoded_len(bytes.len()), |i: int| symbol(quintet(bytes, i)))
}

/// Whether `c` belongs to the base 32 alphabet.
pub open spec fn is_symbol(c: char) -> bool {
    ('A' <= c && c <= 'Z') || ('2' <= c && c <= '7')
}

proof fn lemma_quintet_range(bytes: Seq<u8>, i: int)
    ensures
        0 <= quintet(bytes, i) < 32,
{
}

/// Every character of an encoding is a symbol of the alphabet.
pub proof fn lemma_base32_symbols(bytes: Seq<u8>)
    ensures
        forall|i: int| 0 <= i < base32(bytes).len() ==> is_symbol(#[trigger] base32(bytes)[i]),
{
    assert forall|i: int| 0 <= i < base32(bytes).len() implies is_symbol(
        #[trigger] base32(bytes)[i],
    ) by {
        lemma_quintet_range(bytes, i);
    }
}

proof fn lemma_symbol_injective(v: int, w: int)
    requires
        0 <= v < 32,
        0 <= w < 32,
        symbol(v) == symbol(w),
    ensures
        v == w,
{
    assert(symbol(v) as u8 == symbol(w) as u8);
}

/// A byte is determined by its eight bits.
proof fn lemma_bits_determine_byte(x: u8, y: u8)
    requires
        forall|t: int| 0 <= t < 8 ==> bit_of(x, t) == bit_of(y, t),
    ensures
        x == y,
{
    assert(bit_of(x, 0) == bit_of(y, 0));
    assert(bit_of(x, 1) == bit_of(y, 1));
    assert(bit_of(x, 2) == bit_of(y, 2));
    assert(bit_of(x, 3) == bit_of(y, 3));
    assert(bit_of(x, 4) == bit_of(y, 4));
    assert(bit_of(x, 5) == bit_of(y, 5));
    assert(bit_of(x, 6) == bit_of(y, 6));
    assert(bit_of(x, 7) == bit_of(y, 7));
    assert((x / 128) % 2 == (y / 128) % 2 && (x / 64) % 2 == (y / 64) % 2 && (x / 32) % 2 == (y
        / 32) % 2 && (x / 16) % 2 == (y / 16) % 2 && (x / 8) % 2 == (y / 8) % 2 && (x / 4) % 2 == (y
        / 4) % 2 && (x / 2) % 2 == (y / 2) % 2 && (x / 1) % 2 == (y / 1) % 2 ==> x == y)
        by (bit_vector);
}

/// Two byte strings with the same text agree in every bit.
proof fn lemma_same_text_same_bit(a: Seq<u8>, b: Seq<u8>, j: int, t: int)
    requires
        a.len() == b.len(),
        base32(a) == base32(b),
        0 <= j < a.len(),
        0 <= t < 8,
    ensures
        bit_of(a[j], t) == bit_of(b[j], t),
{
    let k: int = 8 * j + t;
    let i: int = k / 5;
    assert(k / 8 == j && k % 8 == t);
    assert(bit_at(a, k) == bit_of(a[j], t));
    assert(bit_at(b, k) == bit_of(b[j], t));
    assert(0 <= i < encoded_len(a.len()));
    assert(base32(a)[i] == symbol(quintet(a, i)));
    assert(base32(b)[i] == symbol(quintet(b, i)));
    lemma_quintet_range(a, i);
    lemma_quintet_range(b, i);
    lemma_symbol_injective(quintet(a, i), quintet(b, i));
    assert(k == 5 * i + k % 5);
}

/// Two byte strings with the same text are the same.
pub proof fn lemma_base32_injective(a: Seq<u8>, b: Seq<u8>)
    requires
        base32(a) == base32(b),
    ensures
        a == b,
{
    assert(base32(a).len() == encoded_len(a.len()));
    assert(base32(b).len() == encoded_len(b.len()));
    assert(a.len() == b.len());
    assert forall|j: int| 0 <= j < a.len() implies a[j] == b[j] by {
        assert forall|t: int| 0 <= t < 8 implies bit_of(a[j], t) == bit_of(b[j], t) by {
            lemma_same_text_same_bit(a, b, j, t);
        }
        lemma_bits_determine_byte(a[j], b[j]);
    }
    assert(a =~= b);
}

/// `data_encoding::BASE32_NOPAD.encode`: the base 32 text of the bytes. The
/// encoder refuses inputs longer than `usize::MAX / 512` bytes.
#[verifier::external_body]
pub(crate) fn encode_base32(bytes: &[u8]) -> (text: String)
    requires
        bytes@.len() <= usize::MAX / 512,
    ensures
        text@ == base32(bytes@),
{
    data_encoding::BASE32_NOPAD.encode(bytes)
}

/// `data_encoding::BASE32_NOPAD.decode`: the bytes whose base 32 text is `text`.
/// The decoder accepts no other symbols, no padding and no non-zero trailing
/// bits, so it fails exactly on the texts that are no encoding. It refuses
/// inputs longer than `usize::MAX / 8` bytes.
#[verifier::external_body]
pub(crate) fn decode_base32(text: &str) -> (decoded: Result<Vec<u8>, data_encoding::DecodeError>)
    requires
        text.spec_bytes().len() <= usize::MAX / 8,
    ensures
        match decoded {
            Ok(bytes) => base32(bytes@) == text@,
            Err(_) => forall|bytes: Seq<u8>| #[trigger] base32(bytes) != text@,
        },
{
    data_encoding::BASE32_NOPAD.decode(text.as_bytes())
}

} // verus!
