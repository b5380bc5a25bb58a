//! The fixed-capacity byte vector of `heapless`, as the ring buffer uses it.
//!
//! The vector itself is not verified here. Its contents are given a name,
//! and each operation the library calls is stated over that name as the
//! vector's source shows it.

use vstd::prelude::*;

use crate::config::RING_BUFFER_LEN;

verus! {

/// `heapless::Vec`, the fixed-capacity vector: carried through as an opaque
/// value. Nothing is claimed of it here.
#[verifier::external_type_specification]
#[verifier::external_body]
#[verifier::reject_recursive_types(T)]
pub struct ExFixedVec<T, const N: usize>(heapless::Vec<T, N>);

/// The bytes that a `heapless::Vec` holds, in order: what `as_slice` shows.
/// The operations below are stated over this name.
pub uninterp spec fn fixed_vec_bytes(v: heapless::Vec<u8, RING_BUFFER_LEN>) -> Seq<u8>;

/// `heapless::Vec::new`: the new vector holds nothing.
#[verifier::external_body]
pub(crate) fn fixed_vec_new() -> (v: heapless::Vec<u8, RING_BUFFER_LEN>)
    ensures
        fixed_vec_bytes(v) == Seq::<u8>::empty(),
{
    heapless::Vec::new()
}

/// `heapless::Vec::extend_from_slice`: where the vector has room for all of
/// `other`, its bytes are appended in order; otherwise the call fails and the
/// vector is unchanged.
#[verifier::external_body]
pub(crate) fn fixed_vec_extend_from_slice(
    v: &mut heapless::Vec<u8, RING_BUFFER_LEN>,
    other: &[u8],
) -> (result: Result<(), ()>)
    ensures
        fixed_vec_bytes(*old(v)).len() + other@.len() <= RING_BUFFER_LEN ==> result is Ok
            && fixed_vec_bytes(*final(v)) == fixed_vec_bytes(*old(v)) + other@,
        fixed_vec_bytes(*old(v)).len() + other@.len() > RING_BUFFER_LEN ==> result is Err
            && fixed_vec_bytes(*final(v)) == fixed_vec_bytes(*old(v)),
{
    v.extend_from_slice(other)
}

/// `heapless::Vec::as_slice`: the slice holds the vector's bytes, which never
/// number more than the vector's capacity.
#[verifier::external_body]
pub(crate) fn fixed_vec_as_slice(v: &heapless::Vec<u8, RING_BUFFER_LEN>) -> (bytes: &[u8])
    ensures
        bytes@ == fixed_vec_bytes(*v),
        bytes@.len() <= RING_BUFFER_LEN,
{
    v.as_slice()
}

} // verus!
