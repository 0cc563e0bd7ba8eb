//! [`AsBuf`]: the ability to view something as a [`Buf`].

use vstd::prelude::*;
use crate::buf::Buf;
use crate::buffered::Buffered;

verus! {

/// The ability to view something as a [`Buf`].
///
/// This is a pure, read-only projection: no error case, no mutation.
pub trait AsBuf {
    /// The buffer type as which `self` can be viewed.
    type Data: Buf;

    /// The bytes visible through the projected buffer.
    spec fn as_buf_view(&self) -> Seq<u8>;

    /// View as [`Self::Data`].
    fn as_buf(&self) -> (r: &Self::Data)
        ensures
            r.buf_view() == self.as_buf_view(),
    ;
}

impl<T: Buf> AsBuf for T {
    type Data = T;

    open spec fn as_buf_view(&self) -> Seq<u8> {
        self.buf_view()
    }

    fn as_buf(&self) -> (r: &T) {
        self
    }
}

impl<Data: Buf> AsBuf for Buffered<Data> {
    type Data = Data;

    open spec fn as_buf_view(&self) -> Seq<u8> {
        self.data.buf_view()
    }

    fn as_buf(&self) -> (r: &Data) {
        &self.data
    }
}

} // verus!
