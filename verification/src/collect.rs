//! Bufferers that drain an in-memory streaming body, aggregating its
//! data either into one contiguous `bytes::Bytes` or into a chunk list.

use vstd::prelude::*;
use crate::buf::{Buf, ChunkedBuf};
use crate::buffered::{Buffered, Frame};
use crate::bufferer::Bufferer as BuffererTrait;
use crate::bytes_buf::bytes_from_vec;
use crate::frame::{buffer_frames, data_concat, drain_frames, FrameBody};

verus! {

/// Relies on `core::marker::PhantomData::clone`: `PhantomData<T>` is a
/// unit type with a single value, so a clone is that same value.
pub assume_specification<T: core::marker::PointeeSized>[ <core::marker::PhantomData<T> as Clone>::clone ](
    p: &core::marker::PhantomData<T>,
) -> (r: core::marker::PhantomData<T>)
    ensures
        r == *p,
;

/// A bufferer that drains a body and aggregates its data frames; the
/// `Data` parameter picks the aggregation strategy at construction time.
#[derive(Debug, Clone, Copy)]
pub struct Bufferer<Data>(pub core::marker::PhantomData<Data>);

impl<Data> Bufferer<Data> {
    /// Create a new [`Bufferer`] instance.
    pub fn new() -> (r: Self)
        ensures
            r == (Bufferer::<Data>(core::marker::PhantomData)),
    {
        Bufferer(core::marker::PhantomData)
    }
}

impl<Data> Default for Bufferer<Data> {
    fn default() -> (r: Self)
        ensures
            r == (Bufferer::<Data>(core::marker::PhantomData)),
    {
        Self::new()
    }
}

impl<E> BuffererTrait<FrameBody<E>> for Bufferer<bytes::Bytes> {
    type Data = bytes::Bytes;

    type Error = E;

    open spec fn spec_buffer(&self, body: FrameBody<E>) -> Result<
        (Seq<u8>, Option<http::HeaderMap>),
        E,
    > {
        buffer_frames(body.frames@)
    }

    #[verifier::loop_isolation(false)]
    fn buffer(&self, body: FrameBody<E>) -> (r: Result<Buffered<bytes::Bytes>, E>) {
        let ghost all = body.frames@;
        let mut frames = body.frames;
        let mut acc: Vec<u8> = Vec::new();
        let mut trailers: Option<http::HeaderMap> = None;
        while frames.len() > 0
            invariant
                drain_frames(frames@, acc@, trailers) == buffer_frames(all),
            decreases frames@.len(),
        {
            let ghost before = frames@;
            let f = frames.remove(0);
            proof {
                assert(frames@ =~= before.drop_first());
            }
            match f {
                Ok(Frame::Data(mut d)) => {
                    acc.append(&mut d);
                },
                Ok(Frame::Trailers(t)) => {
                    trailers = Some(t);
                },
                Err(e) => {
                    return Err(e);
                },
            }
        }
        Ok(Buffered { data: bytes_from_vec(acc), trailers })
    }
}

impl<E> BuffererTrait<FrameBody<E>> for Bufferer<ChunkedBuf> {
    type Data = ChunkedBuf;

    type Error = E;

    /// The chunk list tracks its total length in a `usize`, so the data
    /// must fit one.
    open spec fn buffer_req(&self, body: FrameBody<E>) -> bool {
        data_concat(body.frames@).len() <= usize::MAX
    }

    open spec fn spec_buffer(&self, body: FrameBody<E>) -> Result<
        (Seq<u8>, Option<http::HeaderMap>),
        E,
    > {
        buffer_frames(body.frames@)
    }

    #[verifier::loop_isolation(false)]
    fn buffer(&self, body: FrameBody<E>) -> (r: Result<Buffered<ChunkedBuf>, E>) {
        let ghost all = body.frames@;
        let mut frames = body.frames;
        let mut acc = ChunkedBuf::new();
        let mut trailers: Option<http::HeaderMap> = None;
        while frames.len() > 0
            invariant
                drain_frames(frames@, acc.buf_view(), trailers) == buffer_frames(all),
                acc.buf_view().len() + data_concat(frames@).len() <= usize::MAX,
            decreases frames@.len(),
        {
            let ghost before = frames@;
            let f = frames.remove(0);
            proof {
                assert(frames@ =~= before.drop_first());
            }
            match f {
                Ok(Frame::Data(d)) => {
                    acc.push_chunk(d);
                },
                Ok(Frame::Trailers(t)) => {
                    trailers = Some(t);
                },
                Err(e) => {
                    return Err(e);
                },
            }
        }
        Ok(Buffered { data: acc, trailers })
    }
}

} // verus!
