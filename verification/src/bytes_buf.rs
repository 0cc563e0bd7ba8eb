//! `bytes::Bytes` as a contiguous buffer: the type, the name of its
//! content, and the few calls the pipeline relies on.

use vstd::prelude::*;
use crate::buf::Buf;

verus! {

/// `bytes::Bytes`, declared so values of it can flow through verified code.
#[verifier::external_type_specification]
#[verifier::external_body]
pub struct ExBytes(bytes::Bytes);

/// The bytes a `bytes::Bytes` value holds, in order.
pub uninterp spec fn bytes_content(b: bytes::Bytes) -> Seq<u8>;

/// Relies on `<bytes::Bytes as From<Vec<u8>>>::from`: the new value holds
/// exactly the vector's bytes.
#[verifier::external_body]
pub fn bytes_from_vec(v: Vec<u8>) -> (r: bytes::Bytes)
    ensures
        bytes_content(r) == v@,
{
    bytes::Bytes::from(v)
}

/// Relies on `bytes::Bytes::len`: the number of bytes held.
#[verifier::external_body]
fn bytes_len(b: &bytes::Bytes) -> (n: usize)
    ensures
        n == bytes_content(*b).len(),
{
    b.len()
}

/// Relies on `<bytes::Bytes as AsRef<[u8]>>::as_ref`: the slice of all bytes held.
#[verifier::external_body]
fn bytes_as_slice(b: &bytes::Bytes) -> (s: &[u8])
    ensures
        s@ == bytes_content(*b),
{
    b.as_ref()
}

impl Buf for bytes::Bytes {
    open spec fn buf_view(&self) -> Seq<u8> {
        bytes_content(*self)
    }

    fn remaining(&self) -> (n: usize) {
        bytes_len(self)
    }

    fn byte_at(&self, i: usize) -> (b: u8) {
        let s = bytes_as_slice(self);
        s[i]
    }

    fn copy_to_vec(&self) -> (v: Vec<u8>) {
        crate::buf::copy_bytes(bytes_as_slice(self))
    }
}

} // verus!
