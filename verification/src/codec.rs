use vstd::prelude::*;

use asn1_codecs::PerCodecData;

verus! {

/// The PER codec buffer of `asn1_codecs`: a bit vector with a decode offset.
#[verifier::external_type_specification]
#[verifier::external_body]
pub struct ExPerCodecData(asn1_codecs::PerCodecData);

/// The bits that a PER codec buffer holds, first bit first.
pub uninterp spec fn per_bits(data: PerCodecData) -> Seq<bool>;

/// Bit `k` of a byte, counting from the most significant bit (`k` in `0..8`).
pub open spec fn byte_bit(b: u8, k: int) -> bool {
    (b >> ((7 - k) as u8)) & 1u8 == 1u8
}

/// The bits of a byte string, most significant bit of each byte first.
pub open spec fn bits_of(bytes: Seq<u8>) -> Seq<bool> {
    Seq::new(8 * bytes.len(), |i: int| byte_bit(bytes[i / 8], i % 8))
}

/// The number of bytes that `n` bits take up.
pub open spec fn bytes_for_bits(n: nat) -> nat {
    (n + 7) / 8
}

/// `bytes` holds `bits` packed most significant bit first: it has just enough
/// bytes, and each bit stands in its place; the padding bits of the last byte
/// may hold anything.
pub open spec fn packs(bytes: Seq<u8>, bits: Seq<bool>) -> bool {
    &&& bytes.len() == bytes_for_bits(bits.len())
    &&& forall|i: int| 0 <= i < bits.len() ==> byte_bit(#[trigger] bytes[i / 8], i % 8) == bits[i]
}

/// Calls `PerCodecData::from_slice_aper`, which copies the bytes into the bit
/// vector of a new aligned-PER buffer (`BitSlice::<u8, Msb0>::from_slice(bytes)
/// .to_bitvec()`). Claimed: the buffer holds the bits of `bytes`, most
/// significant bit first. `bitvec` panics on slices of `BitSlice::MAX_ELTS` or
/// more bytes; the bound below lies under that limit on 32- and 64-bit targets.
#[verifier::external_body]
pub(crate) fn per_from_slice_aper(bytes: &[u8]) -> (r: PerCodecData)
    requires
        bytes@.len() <= usize::MAX / 64,
    ensures
        per_bits(r) == bits_of(bytes@),
{
    PerCodecData::from_slice_aper(bytes)
}

/// Calls `PerCodecData::new_aper`, which makes an aligned-PER buffer with an
/// empty bit vector. Claimed: the buffer holds no bits.
#[verifier::external_body]
pub(crate) fn per_new_aper() -> (r: PerCodecData)
    ensures
        per_bits(r) == Seq::<bool>::empty(),
{
    PerCodecData::new_aper()
}

/// Calls `PerCodecData::length_in_bytes`, which returns
/// `(self.bits.len() + 7) / 8`. Claimed: the result is the number of bytes the
/// buffer's bits take up. (`bitvec` keeps a length below `usize::MAX >> 3`, so
/// the sum does not overflow.)
#[verifier::external_body]
pub(crate) fn per_length_in_bytes(data: &PerCodecData) -> (r: usize)
    ensures
        r == bytes_for_bits(per_bits(*data).len()),
{
    data.length_in_bytes()
}

/// Calls `PerCodecData::into_bytes`, which hands out the storage of the bit
/// vector (`BitVec::into_vec`): every byte that holds a live bit, with the bits
/// most significant first. Claimed: the result packs the buffer's bits. What
/// the padding bits of the last byte hold is left unsaid: `bitvec` documents
/// them as unspecified.
#[verifier::external_body]
pub(crate) fn per_into_bytes(data: PerCodecData) -> (r: Vec<u8>)
    ensures
        packs(r@, per_bits(data)),
{
    data.into_bytes()
}

/// An aligned-PER buffer over the input bytes, ready to be decoded.
pub fn decode_buffer(input: &[u8]) -> (r: PerCodecData)
    requires
        input@.len() <= usize::MAX / 64,
    ensures
        per_bits(r) == bits_of(input@),
{
    per_from_slice_aper(input)
}

/// An empty aligned-PER buffer, ready to be encoded into.
pub fn encode_buffer() -> (r: PerCodecData)
    ensures
        per_bits(r) == Seq::<bool>::empty(),
{
    per_new_aper()
}

/// A buffer over whole bytes measures as many bytes as it was made from.
pub proof fn lemma_bytes_for_whole_bytes(bytes: Seq<u8>)
    ensures
        bits_of(bytes).len() == 8 * bytes.len(),
        bytes_for_bits(bits_of(bytes).len()) == bytes.len(),
{
}

/// `bytes_for_bits(n)` is the least number of bytes whose bits hold `n` bits.
pub proof fn lemma_bytes_for_bits_is_least(n: nat)
    ensures
        8 * bytes_for_bits(n) >= n,
        n > 0 ==> 8 * (bytes_for_bits(n) - 1) < n,
        n == 0 ==> bytes_for_bits(n) == 0,
{
}

} // verus!
