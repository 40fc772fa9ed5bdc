use vstd::prelude::*;

verus! {

/// `bytes::Bytes`, the shared byte buffer that holds videos, images and page
/// bodies. Verus sees it as opaque; its contents are named by `bytes_contents`.
#[verifier::external_type_specification]
#[verifier::external_body]
pub struct ExBytes(bytes::Bytes);

/// The bytes held by a `bytes::Bytes` buffer, in order.
pub uninterp spec fn bytes_contents(b: bytes::Bytes) -> Seq<u8>;

/// `bytes::Bytes::len`: the crate documents it as the number of bytes
/// contained in the buffer.
#[verifier::external_body]
pub(crate) fn bytes_len(b: &bytes::Bytes) -> (n: usize)
    ensures
        n == bytes_contents(*b).len(),
{
    b.len()
}

/// `<bytes::Bytes as Clone>::clone`: a cheap clone that shares the same
/// underlying memory, so it holds the same bytes.
#[verifier::external_body]
pub(crate) fn bytes_clone(b: &bytes::Bytes) -> (c: bytes::Bytes)
    ensures
        bytes_contents(c) == bytes_contents(*b),
{
    b.clone()
}

} // verus!
