//! Conversion of buffered body parts back into a body.

use vstd::prelude::*;
use crate::buf::{Buf, ChunkedBuf};
use crate::buffered::{Body, Buffered};

verus! {

/// What a finite body delivers when drained to its end.
pub trait BodyContent {
    /// Every byte of data the body will yield, in order.
    spec fn content_bytes(&self) -> Seq<u8>;

    /// The trailers the body will yield after its data, if any.
    spec fn content_trailers(&self) -> Option<http::HeaderMap>;
}

impl<Data: Buf> BodyContent for Body<Data> {
    open spec fn content_bytes(&self) -> Seq<u8> {
        self.content_bytes_view()
    }

    open spec fn content_trailers(&self) -> Option<http::HeaderMap> {
        self.spec_trailers()
    }
}

/// Convert self into a body that delivers exactly self's content.
pub trait IntoBody: Sized {
    /// The body type to convert to.
    type Body: BodyContent;

    /// The data bytes this value holds.
    spec fn body_bytes(self) -> Seq<u8>;

    /// The trailers this value holds.
    spec fn body_trailers(self) -> Option<http::HeaderMap>;

    /// Consume self and turn it into a body; nothing is lost, duplicated
    /// or reordered on the way.
    fn into_body(self) -> (r: Self::Body)
        ensures
            r.content_bytes() == self.body_bytes(),
            r.content_trailers() == self.body_trailers(),
    ;
}

impl<Data: Buf> IntoBody for Buffered<Data> {
    type Body = Body<Data>;

    open spec fn body_bytes(self) -> Seq<u8> {
        self.data.buf_view()
    }

    open spec fn body_trailers(self) -> Option<http::HeaderMap> {
        self.trailers
    }

    fn into_body(self) -> (r: Body<Data>) {
        Body::from_buffered(self)
    }
}

/// Conversion of buffered body parts into an output body.
///
/// Every converter must hand the whole buffered content on: the output
/// body's data and trailers are exactly the buffered data and trailers.
pub trait BufferedToBody {
    /// The buffered data representation to convert from.
    type Data: Buf;

    /// The body type to convert to.
    type Body: BodyContent;

    /// Consume the buffered parts and turn them into a body.
    fn buffered_to_body(buffered: Buffered<Self::Data>) -> (r: Self::Body)
        ensures
            r.content_bytes() == buffered.data.buf_view(),
            r.content_trailers() == buffered.trailers,
    ;
}

/// The default [`BufferedToBody`]: converts through [`IntoBody`].
///
/// Swap this type with your own to target another body type.
/// This type is not intended to be instantiated.
pub struct Trivial<B>(pub core::marker::PhantomData<B>);

impl<Data: Buf> BufferedToBody for Trivial<Buffered<Data>> {
    type Data = Data;

    type Body = Body<Data>;

    fn buffered_to_body(buffered: Buffered<Data>) -> (r: Body<Data>) {
        buffered.into_body()
    }
}

/// A custom converter: copies chunked data into one contiguous vector,
/// for a consumer that needs contiguous access after all.
pub struct ToContiguous;

impl BufferedToBody for ToContiguous {
    type Data = ChunkedBuf;

    type Body = Body<Vec<u8>>;

    fn buffered_to_body(buffered: Buffered<ChunkedBuf>) -> (r: Body<Vec<u8>>) {
        let data = buffered.data.copy_to_vec();
        Body::from_buffered(Buffered { data, trailers: buffered.trailers })
    }
}

} // verus!
