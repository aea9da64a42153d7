use vstd::prelude::*;

verus! {

/// An arena-backed growable vector of bumpalo; Verus sees it as opaque.
#[verifier::external_type_specification]
#[verifier::external_body]
#[verifier::reject_recursive_types(T)]
pub struct ExBumpVec<'bump, T>(bumpalo::collections::Vec<'bump, T>);

/// The bytes that a bumpalo vector holds, in order.
pub uninterp spec fn bump_bytes(v: bumpalo::collections::Vec<u8>) -> Seq<u8>;

/// Relies on bumpalo's `Vec::extend_from_slice`: it appends the slice's
/// elements, in order, after the existing ones. It panics only where the
/// new capacity would overflow, which `requires` leaves out.
#[verifier::external_body]
pub(crate) fn append_bytes<'a>(buf: &mut bumpalo::collections::Vec<'a, u8>, bytes: &[u8])
    requires
        bump_bytes(*old(buf)).len() + bytes@.len() <= isize::MAX,
    ensures
        bump_bytes(*final(buf)) == bump_bytes(*old(buf)) + bytes@,
{
    buf.extend_from_slice(bytes);
}

/// Relies on bumpalo's `Vec::len`: the number of elements the vector holds.
#[verifier::external_body]
pub(crate) fn byte_count<'a>(buf: &bumpalo::collections::Vec<'a, u8>) -> (r: usize)
    ensures
        r == bump_bytes(*buf).len(),
{
    buf.len()
}

/// Relies on bumpalo's `Vec::push`: it appends one element at the end.
#[verifier::external_body]
pub(crate) fn push_byte<'a>(buf: &mut bumpalo::collections::Vec<'a, u8>, byte: u8)
    requires
        bump_bytes(*old(buf)).len() + 1 <= isize::MAX,
    ensures
        bump_bytes(*final(buf)) == bump_bytes(*old(buf)).push(byte),
{
    buf.push(byte);
}

/// Relies on bumpalo's `Vec::reserve`: it grows the capacity and leaves the
/// elements as they are.
#[verifier::external_body]
pub(crate) fn reserve_bytes<'a>(buf: &mut bumpalo::collections::Vec<'a, u8>, additional: usize)
    requires
        bump_bytes(*old(buf)).len() + additional <= isize::MAX,
    ensures
        bump_bytes(*final(buf)) == bump_bytes(*old(buf)),
{
    buf.reserve(additional);
}

} // verus!
