//! Response payloads of at most 256 bytes, held without a heap.

use vstd::prelude::*;

verus! {

/// The bytes that a command answers with.
pub type Payload = heapless::Vec<u8, 256>;

/// `heapless::Vec`, a vector of at most `N` items.
#[verifier::external_type_specification]
#[verifier::external_body]
#[verifier::reject_recursive_types(T)]
pub struct ExHeaplessVec<T, const N: usize>(heapless::Vec<T, N>);

/// The items that a payload holds, in order.
pub uninterp spec fn payload_bytes(payload: heapless::Vec<u8, 256>) -> Seq<u8>;

/// Calls `heapless::Vec::new`, which gives a vector without items.
#[verifier::external_body]
fn heapless_new() -> (payload: Payload)
    ensures
        payload_bytes(payload) == Seq::<u8>::empty(),
{
    heapless::Vec::new()
}

/// Calls `heapless::Vec::from_slice`, which copies the slice into a new vector. It
/// fails exactly where the slice is longer than the capacity of the vector.
#[verifier::external_body]
fn heapless_from_slice(bytes: &[u8]) -> (payload: Result<Payload, ()>)
    ensures
        payload is Ok <==> bytes@.len() <= 256,
        payload matches Ok(copied) ==> payload_bytes(copied) == bytes@,
{
    heapless::Vec::from_slice(bytes)
}

/// A payload without bytes.
pub fn empty_payload() -> (payload: Payload)
    ensures
        payload_bytes(payload) == Seq::<u8>::empty(),
{
    heapless_new()
}

/// A payload with a copy of `bytes`.
pub fn copy_payload(bytes: &[u8]) -> (payload: Payload)
    requires
        bytes@.len() <= 256,
    ensures
        payload_bytes(payload) == bytes@,
{
    heapless_from_slice(bytes).unwrap()
}

} // verus!
