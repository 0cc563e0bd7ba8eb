//! Buffered body parts, and the body that replays them downstream.

use vstd::prelude::*;
use crate::buf::Buf;

verus! {

/// `http::HeaderMap`, declared so trailer values can be carried through
/// verified code. The pipeline never looks inside one: trailers are
/// captured during buffering and handed back out unchanged.
#[verifier::external_type_specification]
#[verifier::external_body]
#[verifier::reject_recursive_types(T)]
pub struct ExHeaderMap<T>(http::HeaderMap<T>);

/// `http::HeaderValue`, the value type header maps carry by default;
/// declared only so `http::HeaderMap` itself can be named.
#[verifier::external_type_specification]
#[verifier::external_body]
pub struct ExHeaderValue(http::HeaderValue);

/// Fully buffered body parts: the collected data, and the trailers
/// if the stream delivered any.
#[derive(Debug)]
pub struct Buffered<Data: Buf> {
    /// The body data, viewable as one flat byte sequence.
    pub data: Data,
    /// The buffered trailers, if any.
    pub trailers: Option<http::HeaderMap>,
}

/// A buffered body: yields its data once, then its trailers, then ends.
#[derive(Debug)]
pub struct Body<Data: Buf> {
    data: Option<Data>,
    trailers: Option<http::HeaderMap>,
}

/// One frame of a body stream: a chunk of data, or trailing metadata.
#[derive(Debug)]
pub enum Frame<Data> {
    /// A data chunk.
    Data(Data),
    /// Trailing header-like metadata, delivered after the data.
    Trailers(http::HeaderMap),
}

impl<Data: Buf> Body<Data> {
    /// The data frame still to be yielded, if any.
    pub closed spec fn spec_data(&self) -> Option<Data> {
        self.data
    }

    /// The trailers frame still to be yielded, if any.
    pub closed spec fn spec_trailers(&self) -> Option<http::HeaderMap> {
        self.trailers
    }

    /// The bytes a full drain of this body will deliver.
    pub open spec fn content_bytes_view(&self) -> Seq<u8> {
        match self.spec_data() {
            Some(d) => d.buf_view(),
            None => Seq::empty(),
        }
    }

    /// Create a buffered [`Body`] from [`Buffered`].
    ///
    /// The body will yield one data frame holding all buffered data, even
    /// when the data is empty, then the trailers if any were captured.
    pub fn from_buffered(value: Buffered<Data>) -> (r: Body<Data>)
        ensures
            r.spec_data() == Some(value.data),
            r.spec_trailers() == value.trailers,
    {
        Body { data: Some(value.data), trailers: value.trailers }
    }

    /// Yield the next frame: the data, then the trailers, then `None` forever.
    pub fn next_frame(&mut self) -> (r: Option<Frame<Data>>)
        ensures
            match old(self).spec_data() {
                Some(d) => {
                    &&& r == Some(Frame::<Data>::Data(d))
                    &&& final(self).spec_data() == None::<Data>
                    &&& final(self).spec_trailers() == old(self).spec_trailers()
                },
                None => match old(self).spec_trailers() {
                    Some(t) => {
                        &&& r == Some(Frame::<Data>::Trailers(t))
                        &&& final(self).spec_data() == None::<Data>
                        &&& final(self).spec_trailers() == None::<http::HeaderMap>
                    },
                    None => r == None::<Frame<Data>> && *final(self) == *old(self),
                },
            },
    {
        if let Some(data) = self.data.take() {
            return Some(Frame::Data(data));
        }
        if let Some(trailers) = self.trailers.take() {
            return Some(Frame::Trailers(trailers));
        }
        None
    }

    /// How many frames this body still has to yield.
    pub open spec fn frames_left(&self) -> int {
        (if self.spec_data() is Some {
            1int
        } else {
            0int
        }) + (if self.spec_trailers() is Some {
            1int
        } else {
            0int
        })
    }

    /// Drain the body to its end, collecting every byte of data and the
    /// trailers it yields. The body delivers its content exactly once:
    /// what comes out is exactly what was buffered.
    #[verifier::loop_isolation(false)]
    pub fn drain(self) -> (r: (Vec<u8>, Option<http::HeaderMap>))
        ensures
            r.0@ == self.content_bytes_view(),
            r.1 == self.spec_trailers(),
    {
        let ghost orig = self;
        let mut body = self;
        let mut out: Vec<u8> = Vec::new();
        let mut trailers: Option<http::HeaderMap> = None;
        loop
            invariant
                out@ + body.content_bytes_view() == orig.content_bytes_view(),
                body.spec_data() is Some ==> trailers == None::<http::HeaderMap>,
                body.spec_data() is Some ==> body.spec_trailers() == orig.spec_trailers(),
                body.spec_data() is None ==> match body.spec_trailers() {
                    Some(t) => trailers == None::<http::HeaderMap> && orig.spec_trailers() == Some(
                        t,
                    ),
                    None => trailers == orig.spec_trailers(),
                },
            decreases body.frames_left(),
        {
            match body.next_frame() {
                Some(Frame::Data(d)) => {
                    let mut bytes = d.copy_to_vec();
                    out.append(&mut bytes);
                },
                Some(Frame::Trailers(t)) => {
                    trailers = Some(t);
                },
                None => {
                    proof {
                        assert(out@ =~= orig.content_bytes_view());
                    }
                    return (out, trailers);
                },
            }
            proof {
                assert(out@ + body.content_bytes_view() =~= orig.content_bytes_view());
            }
        }
    }
}

} // verus!
