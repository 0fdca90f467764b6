use vstd::prelude::*;

use bytes::Bytes;

verus! {

/// A shared, reference-counted byte buffer from the `bytes` crate. Inlined
/// object payloads and resolved delta instructions are handed out as such
/// buffers, so a clone shares storage with the store's copy instead of
/// duplicating it. The type is opaque here; `bytes_content` names what a
/// buffer holds.
#[verifier::external_type_specification]
#[verifier::external_body]
pub struct ExBytes(Bytes);

/// The bytes a buffer holds.
pub uninterp spec fn bytes_content(b: Bytes) -> Seq<u8>;

/// Relies on `<Bytes as From<Vec<u8>>>::from`: the buffer takes over exactly
/// the vector's bytes.
#[verifier::external_body]
pub(crate) fn bytes_of_vec(v: Vec<u8>) -> (b: Bytes)
    ensures
        bytes_content(b) == v@,
{
    Bytes::from(v)
}

/// Relies on `<Bytes as Clone>::clone`: the clone shares the underlying
/// storage, so it holds the same bytes.
#[verifier::external_body]
pub(crate) fn bytes_clone(b: &Bytes) -> (r: Bytes)
    ensures
        bytes_content(r) == bytes_content(*b),
{
    b.clone()
}

/// Relies on `<Bytes as AsRef<[u8]>>::as_ref`: a view of the held bytes,
/// copied here onto the end of the vector.
#[verifier::external_body]
pub(crate) fn bytes_append_to_vec(v: &mut Vec<u8>, b: &Bytes)
    ensures
        final(v)@ == old(v)@ + bytes_content(*b),
{
    v.extend_from_slice(b.as_ref())
}

} // verus!
