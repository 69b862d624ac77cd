use vstd::prelude::*;

use asn1_codecs::PerCodecData;

use crate::codec::{bytes_for_bits, packs, per_bits, per_into_bytes, per_length_in_bytes};

verus! {

/// Failure of an unspecified kind (the input was empty, or it did not decode
/// or re-encode).
pub const S1AP_ERR_UNSPECIFIED: isize = -1;

/// A length argument was negative.
pub const S1AP_ERR_INVALID_ARG: isize = -2;

/// No message could be generated from the input bytes.
pub const S1AP_ERR_ARBITRARY_FAIL: isize = -3;

/// The generated message did not APER-encode.
pub const S1AP_ERR_APER_ENCODING: isize = -4;

/// The encoded message does not fit in the output buffer.
pub const S1AP_ERR_OUTPUT_TRUNC: isize = -5;

/// The number of input bytes to read for a length argument: none when the
/// length is not positive.
pub fn input_length(in_len: isize) -> (r: Option<usize>)
    ensures
        in_len <= 0 ==> r is None,
        in_len > 0 ==> r == Some(in_len as usize),
{
    if in_len <= 0 {
        None
    } else {
        Some(in_len as usize)
    }
}

/// The measured length of a message: the number of bytes its re-encoding
/// takes up, or `S1AP_ERR_UNSPECIFIED` when the input length is not positive
/// or the message did not decode or re-encode (`reencoded` is `None`).
pub fn s1ap_msg_len(in_len: isize, reencoded: Option<&PerCodecData>) -> (r: isize)
    ensures
        in_len <= 0 ==> r == S1AP_ERR_UNSPECIFIED,
        in_len > 0 && reencoded is None ==> r == S1AP_ERR_UNSPECIFIED,
        in_len > 0 && reencoded is Some ==> r == bytes_for_bits(per_bits(*reencoded.unwrap()).len()) as isize,
{
    if in_len <= 0 {
        return S1AP_ERR_UNSPECIFIED;
    }
    match reencoded {
        None => S1AP_ERR_UNSPECIFIED,
        Some(data) => per_length_in_bytes(data) as isize,
    }
}

/// A re-encoding that holds exactly the bits of the input measures the input's
/// length.
pub proof fn lemma_whole_reencoding_measures_input(in_len: isize, bits: Seq<bool>, input: Seq<u8>)
    requires
        in_len > 0,
        input.len() == in_len,
        bits == crate::codec::bits_of(input),
    ensures
        bytes_for_bits(bits.len()) as isize == in_len,
{
    crate::codec::lemma_bytes_for_whole_bytes(input);
}

/// Checks the two length arguments of the generator: both must be
/// non-negative.
pub fn structured_lengths(in_len: isize, out_max: isize) -> (r: Result<(usize, usize), isize>)
    ensures
        in_len >= 0 && out_max >= 0 ==> r == Ok::<(usize, usize), isize>((in_len as usize, out_max as usize)),
        !(in_len >= 0 && out_max >= 0) ==> r == Err::<(usize, usize), isize>(S1AP_ERR_INVALID_ARG),
{
    if in_len < 0 || out_max < 0 {
        Err(S1AP_ERR_INVALID_ARG)
    } else {
        Ok((in_len as usize, out_max as usize))
    }
}

/// What became of generating and encoding a message from fuzzer bytes.
pub enum Generation {
    /// No message could be generated from the bytes.
    ArbitraryFailed,
    /// A message was generated but did not encode.
    EncodingFailed,
    /// The message, APER-encoded.
    Encoded(PerCodecData),
}

/// The outcome of writing an encoding of `bits` into a buffer that held `before`.
pub open spec fn writes_encoding(r: isize, bits: Seq<bool>, before: Seq<u8>, after: Seq<u8>) -> bool {
    let n = bytes_for_bits(bits.len());
    if n > before.len() {
        r == S1AP_ERR_OUTPUT_TRUNC && after == before
    } else {
        &&& r == (if n <= isize::MAX { n as int } else { S1AP_ERR_OUTPUT_TRUNC as int })
        &&& after.len() == before.len()
        &&& packs(after.subrange(0, n as int), bits)
        &&& after.subrange(n as int, after.len() as int) == before.subrange(n as int, before.len() as int)
    }
}

/// An encoding is written whenever it fits: when its `(bits + 7) / 8` bytes
/// are no more than the buffer holds (and fit in an `isize`), the result is
/// that byte count and the front of the buffer packs the bits, the rest of it
/// unchanged. `S1AP_ERR_OUTPUT_TRUNC` comes only from an encoding longer than
/// the buffer (or than `isize::MAX`), and leaves a buffer it did not fit in as
/// it was.
pub proof fn lemma_encoding_written_when_it_fits(r: isize, bits: Seq<bool>, before: Seq<u8>, after: Seq<u8>)
    requires
        writes_encoding(r, bits, before, after),
    ensures
        (bits.len() + 7) / 8 <= before.len() && (bits.len() + 7) / 8 <= isize::MAX ==> {
            &&& r == (bits.len() + 7) / 8
            &&& after.len() == before.len()
            &&& packs(after.subrange(0, ((bits.len() + 7) / 8) as int), bits)
            &&& forall|k: int| (bits.len() + 7) / 8 <= k < before.len() ==> after[k] == before[k]
        },
        r == S1AP_ERR_OUTPUT_TRUNC ==> (bits.len() + 7) / 8 > before.len() || (bits.len() + 7) / 8 > isize::MAX,
        (bits.len() + 7) / 8 > before.len() ==> r == -5 && after == before,
        r < 0 ==> r == -5,
{
    let n = (bits.len() + 7) / 8;
    if n <= before.len() {
        assert forall|k: int| n <= k < before.len() implies after[k] == before[k] by {
            assert(after.subrange(n as int, after.len() as int)[k - n] == after[k]);
            assert(before.subrange(n as int, before.len() as int)[k - n] == before[k]);
        }
    }
}

/// Writes a generated message into the output buffer and returns its length.
/// A failed generation gives `S1AP_ERR_ARBITRARY_FAIL`, a failed encoding
/// `S1AP_ERR_APER_ENCODING`, an encoding longer than the buffer
/// `S1AP_ERR_OUTPUT_TRUNC`; in these cases the buffer is left as it was.
/// Otherwise the encoding's bytes fill the front of the buffer, the rest of it
/// is left as it was, and the length is returned (`S1AP_ERR_OUTPUT_TRUNC` if
/// it does not fit in an `isize`).
pub fn s1ap_arbitrary_to_structured(generation: Generation, out: &mut [u8]) -> (r: isize)
    ensures
        generation is ArbitraryFailed ==> r == S1AP_ERR_ARBITRARY_FAIL && final(out)@ == old(out)@,
        generation is EncodingFailed ==> r == S1AP_ERR_APER_ENCODING && final(out)@ == old(out)@,
        generation matches Generation::Encoded(data) ==> writes_encoding(r, per_bits(data), old(out)@, final(out)@),
{
    let data = match generation {
        Generation::ArbitraryFailed => return S1AP_ERR_ARBITRARY_FAIL,
        Generation::EncodingFailed => return S1AP_ERR_APER_ENCODING,
        Generation::Encoded(data) => data,
    };
    let bytes = per_into_bytes(data);
    let n = bytes.len();
    if n > out.len() {
        return S1AP_ERR_OUTPUT_TRUNC;
    }
    let ghost before = out@;
    let mut i: usize = 0;
    while i < n
        invariant
            n == bytes@.len(),
            n <= out@.len(),
            0 <= i <= n,
            out@.len() == before.len(),
            forall|k: int| 0 <= k < i ==> out@[k] == bytes@[k],
            forall|k: int| i <= k < out@.len() ==> out@[k] == before[k],
        decreases n - i,
    {
        out[i] = bytes[i];
        i = i + 1;
    }
    assert(out@.subrange(0, n as int) =~= bytes@);
    assert(out@.subrange(n as int, out@.len() as int) =~= before.subrange(n as int, before.len() as int));
    if n <= isize::MAX as usize {
        n as isize
    } else {
        S1AP_ERR_OUTPUT_TRUNC
    }
}

} // verus!
