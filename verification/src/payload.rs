//! The byte buffer that carries a tile payload to the wire.

use bytes::Bytes;
use vstd::prelude::*;

verus! {

/// `bytes::Bytes`, a cheaply cloneable buffer of bytes. Its representation is
/// not visible to the verifier; contracts speak of it through
/// [`buffer_contents`].
#[verifier::external_type_specification]
#[verifier::external_body]
pub struct ExBytes(bytes::Bytes);

/// The bytes that a buffer holds, in order.
pub uninterp spec fn buffer_contents(buffer: Bytes) -> Seq<u8>;

/// Calls `Bytes::from(Vec<u8>)`. Trusted: the buffer that comes back holds
/// exactly the bytes of the vector, in the same order.
#[verifier::external_body]
pub(crate) fn buffer_from_vec(payload: Vec<u8>) -> (buffer: Bytes)
    ensures
        buffer_contents(buffer) == payload@,
{
    Bytes::from(payload)
}

/// `Bytes::clone`. Trusted: the copy holds the same bytes as the buffer it
/// was made from.
pub assume_specification[ <Bytes as Clone>::clone ](buffer: &Bytes) -> (copy: Bytes)
    ensures
        buffer_contents(copy) == buffer_contents(*buffer),
;

/// Calls `Bytes::len`. Trusted: the result is the number of bytes held.
#[verifier::external_body]
pub(crate) fn buffer_len(buffer: &Bytes) -> (n: usize)
    ensures
        n == buffer_contents(*buffer).len(),
{
    buffer.len()
}

} // verus!
