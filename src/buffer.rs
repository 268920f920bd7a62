//! The fixed-capacity outbound transfer buffer, a `heapless::Vec`.
use vstd::prelude::*;

verus! {

#[verifier::external_type_specification]
#[verifier::external_body]
#[verifier::reject_recursive_types(T)]
pub struct ExHeaplessVec<T, const N: usize>(heapless::Vec<T, N>);

/// The bytes held by a transfer buffer, in order.
pub uninterp spec fn buffer_bytes(v: heapless::Vec<u8, 512>) -> Seq<u8>;

/// Relies on `heapless::Vec::new`: a new vector is empty.
#[verifier::external_body]
pub(crate) fn buffer_new() -> (r: heapless::Vec<u8, 512>)
    ensures
        buffer_bytes(r) == Seq::<u8>::empty(),
{
    heapless::Vec::new()
}

/// Relies on `heapless::Vec::len`: the number of bytes held, never more
/// than the capacity.
#[verifier::external_body]
pub(crate) fn buffer_len(v: &heapless::Vec<u8, 512>) -> (r: usize)
    ensures
        r == buffer_bytes(*v).len(),
        r <= 512,
{
    v.len()
}

/// Relies on `heapless::Vec::extend_from_slice`: when the bytes fit in
/// the capacity they are appended, otherwise nothing changes.
#[verifier::external_body]
pub(crate) fn buffer_extend(v: &mut heapless::Vec<u8, 512>, s: &[u8]) -> (r: Result<(), ()>)
    ensures
        r is Ok <==> buffer_bytes(*old(v)).len() + s@.len() <= 512,
        r is Ok ==> buffer_bytes(*final(v)) == buffer_bytes(*old(v)) + s@,
        r is Err ==> buffer_bytes(*final(v)) == buffer_bytes(*old(v)),
{
    v.extend_from_slice(s)
}

/// Relies on `heapless::Vec::clear`: the vector is left empty.
#[verifier::external_body]
pub(crate) fn buffer_clear(v: &mut heapless::Vec<u8, 512>)
    ensures
        buffer_bytes(*final(v)) == Seq::<u8>::empty(),
{
    v.clear()
}

/// Relies on `heapless::Vec::as_slice`: the bytes held, in order.
#[verifier::external_body]
pub(crate) fn buffer_as_slice(v: &heapless::Vec<u8, 512>) -> (r: &[u8])
    ensures
        r@ == buffer_bytes(*v),
{
    v.as_slice()
}

} // verus!
