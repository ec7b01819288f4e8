//! Binary assets attached to a render.
//!
//! A render carries an id-to-bitmap mapping next to the tree; the bitmaps
//! are reference-counted byte handles from the `bytes` crate.  The handle
//! type is opaque here: the engine stores and hands out such handles and
//! reasons about their contents only through [`bytes_data`].

use vstd::prelude::*;

verus! {

#[verifier::external_type_specification]
#[verifier::external_body]
pub struct ExBytes(bytes::Bytes);

/// The byte sequence a `bytes::Bytes` handle holds.
pub uninterp spec fn bytes_data(b: bytes::Bytes) -> Seq<u8>;

/// Relies on bytes::Bytes::len: the number of bytes the handle holds.
#[verifier::external_body]
pub(crate) fn bytes_len(b: &bytes::Bytes) -> (r: usize)
    ensures
        r == bytes_data(*b).len(),
{
    b.len()
}

} // verus!
