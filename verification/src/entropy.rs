use vstd::prelude::*;

use arbitrary::Unstructured;

verus! {

/// The byte source of the `arbitrary` crate.
#[verifier::external_type_specification]
#[verifier::external_body]
pub struct ExUnstructured<'a>(arbitrary::Unstructured<'a>);

/// The error type of the `arbitrary` crate.
#[verifier::external_type_specification]
#[verifier::external_body]
pub struct ExArbitraryError(arbitrary::Error);

/// The bytes an `Unstructured` has not handed out yet.
pub uninterp spec fn unstructured_data(u: Unstructured<'_>) -> Seq<u8>;

/// Calls `Unstructured::new`, which keeps the slice as the data still to be
/// handed out. Claimed: exactly those bytes remain.
#[verifier::external_body]
fn unstructured_new<'a>(data: &'a [u8]) -> (r: Unstructured<'a>)
    ensures
        unstructured_data(r) == data@,
{
    Unstructured::new(data)
}

/// Calls `Unstructured::int_in_range` for `i32` on `start..=end`. The source
/// (`int_in_range_impl`) returns `Ok` always; it returns `start` without
/// reading a byte when `start == end`; otherwise, for a range of at most 256
/// values, it reads one byte `b` if there is one and returns
/// `start + b % (end - start + 1)`, or `start` when no byte is left. Claimed:
/// exactly that, stated for ranges of at most 256 values, the only ones this
/// library asks for. The function panics when `start > end`.
#[verifier::external_body]
fn int_in_range_i32(u: &mut Unstructured<'_>, start: i32, end: i32) -> (r: Result<i32, arbitrary::Error>)
    requires
        start <= end,
        end - start < 256,
    ensures
        start == end ==> r is Ok && r->Ok_0 == start
            && unstructured_data(*final(u)) == unstructured_data(*old(u)),
        start < end && unstructured_data(*old(u)).len() == 0 ==> r is Ok && r->Ok_0 == start
            && unstructured_data(*final(u)) == unstructured_data(*old(u)),
        start < end && unstructured_data(*old(u)).len() > 0 ==> r is Ok
            && r->Ok_0 == start + unstructured_data(*old(u))[0] as int % (end - start + 1)
            && unstructured_data(*final(u)) == unstructured_data(*old(u)).drop_first(),
{
    u.int_in_range(start..=end)
}

/// The largest number of messages in a generated sequence.
pub const MAX_MESSAGES: i32 = 6;

/// A byte source over fuzzer input, for generating messages.
pub fn entropy_source<'a>(data: &'a [u8]) -> (r: Unstructured<'a>)
    ensures
        unstructured_data(r) == data@,
{
    unstructured_new(data)
}

/// The number of messages in a generated sequence: `0..=MAX_MESSAGES`, drawn
/// from the next byte (its value modulo 7), or 0 when no byte is left.
pub fn ogs_message_count(u: &mut Unstructured<'_>) -> (r: usize)
    ensures
        r <= MAX_MESSAGES,
        unstructured_data(*old(u)).len() == 0 ==> r == 0
            && unstructured_data(*final(u)) == unstructured_data(*old(u)),
        unstructured_data(*old(u)).len() > 0 ==> r == unstructured_data(*old(u))[0] % 7
            && unstructured_data(*final(u)) == unstructured_data(*old(u)).drop_first(),
{
    match int_in_range_i32(u, 0, MAX_MESSAGES) {
        Ok(n) => n as usize,
        Err(_) => 0,
    }
}

} // verus!
