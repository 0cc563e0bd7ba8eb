//! The in-memory streaming body model: the frames a stream will yield,
//! in order, and what draining them all produces.

use vstd::prelude::*;
use crate::buffered::Frame;

verus! {

/// An in-memory streaming body: the outcomes of polling the stream, in
/// order. An `Err` entry is the stream failing at that point.
#[derive(Debug)]
pub struct FrameBody<E> {
    /// The frames the stream will deliver, first first.
    pub frames: Vec<Result<Frame<Vec<u8>>, E>>,
}

impl<E> FrameBody<E> {
    /// A body that delivers the given frames.
    pub fn new(frames: Vec<Result<Frame<Vec<u8>>, E>>) -> (r: FrameBody<E>)
        ensures
            r.frames == frames,
    {
        FrameBody { frames }
    }
}

/// The outcome of draining `frames` when `acc` bytes and `trailers` have
/// already been collected: data frames concatenate in order, a trailers
/// frame replaces the trailers captured so far, an error discards
/// everything and is the outcome.
pub open spec fn drain_frames<E>(
    frames: Seq<Result<Frame<Vec<u8>>, E>>,
    acc: Seq<u8>,
    trailers: Option<http::HeaderMap>,
) -> Result<(Seq<u8>, Option<http::HeaderMap>), E>
    decreases frames.len(),
{
    if frames.len() == 0 {
        Ok((acc, trailers))
    } else {
        match frames.first() {
            Result::Err(e) => Err(e),
            Result::Ok(Frame::Data(d)) => drain_frames(frames.drop_first(), acc + d@, trailers),
            Result::Ok(Frame::Trailers(t)) => drain_frames(frames.drop_first(), acc, Some(t)),
        }
    }
}

/// What buffering a whole stream produces: every data byte in order and
/// the last trailers delivered, or the first error the stream yields.
pub open spec fn buffer_frames<E>(frames: Seq<Result<Frame<Vec<u8>>, E>>) -> Result<
    (Seq<u8>, Option<http::HeaderMap>),
    E,
> {
    drain_frames(frames, Seq::empty(), None)
}

/// The concatenation of the data frames among `frames`, in order.
pub open spec fn data_concat<E>(frames: Seq<Result<Frame<Vec<u8>>, E>>) -> Seq<u8>
    decreases frames.len(),
{
    if frames.len() == 0 {
        Seq::empty()
    } else {
        match frames.first() {
            Result::Ok(Frame::Data(d)) => d@ + data_concat(frames.drop_first()),
            _ => data_concat(frames.drop_first()),
        }
    }
}

/// The trailers captured after draining `frames`, starting from `prior`.
pub open spec fn trailers_after<E>(
    frames: Seq<Result<Frame<Vec<u8>>, E>>,
    prior: Option<http::HeaderMap>,
) -> Option<http::HeaderMap>
    decreases frames.len(),
{
    if frames.len() == 0 {
        prior
    } else {
        match frames.first() {
            Result::Ok(Frame::Trailers(t)) => trailers_after(frames.drop_first(), Some(t)),
            _ => trailers_after(frames.drop_first(), prior),
        }
    }
}

/// The trailers of the last trailers frame among `frames`, if any.
pub open spec fn last_trailers<E>(frames: Seq<Result<Frame<Vec<u8>>, E>>) -> Option<
    http::HeaderMap,
> {
    trailers_after(frames, None)
}

/// Whether every entry of `frames` is a frame, none an error.
pub open spec fn error_free<E>(frames: Seq<Result<Frame<Vec<u8>>, E>>) -> bool {
    forall|k: int| 0 <= k < frames.len() ==> frames[k] is Ok
}

/// Draining an error-free stream succeeds, delivers every data byte in
/// order exactly once, and captures the last trailers.
pub proof fn lemma_drain_error_free<E>(
    frames: Seq<Result<Frame<Vec<u8>>, E>>,
    acc: Seq<u8>,
    trailers: Option<http::HeaderMap>,
)
    requires
        error_free(frames),
    ensures
        drain_frames(frames, acc, trailers) == Ok::<_, E>(
            (acc + data_concat(frames), trailers_after(frames, trailers)),
        ),
    decreases frames.len(),
{
    if frames.len() == 0 {
        assert(acc + data_concat(frames) =~= acc);
    } else {
        assert(error_free(frames.drop_first())) by {
            assert(forall|k: int|
                0 <= k < frames.drop_first().len() ==> frames.drop_first()[k] == frames[k + 1]);
        }
        match frames.first() {
            Result::Ok(Frame::Data(d)) => {
                lemma_drain_error_free(frames.drop_first(), acc + d@, trailers);
                assert((acc + d@) + data_concat(frames.drop_first()) =~= acc + data_concat(frames));
            },
            Result::Ok(Frame::Trailers(t)) => {
                lemma_drain_error_free(frames.drop_first(), acc, Some(t));
                assert(acc + data_concat(frames.drop_first()) =~= acc + data_concat(frames));
            },
            Result::Err(_) => {
                assert(frames[0] is Ok);
                assert(false);
            },
        }
    }
}

/// Buffering the whole of an error-free stream yields exactly its data
/// bytes, in order, and its last trailers: nothing is lost, duplicated
/// or reordered.
pub proof fn lemma_buffer_error_free<E>(frames: Seq<Result<Frame<Vec<u8>>, E>>)
    requires
        error_free(frames),
    ensures
        buffer_frames(frames) == Ok::<_, E>((data_concat(frames), last_trailers(frames))),
{
    lemma_drain_error_free(frames, Seq::empty(), None);
    assert(Seq::empty() + data_concat(frames) =~= data_concat(frames));
}

/// Buffering fails fast: when the stream first errs at position `n`, the
/// outcome of buffering is exactly that error, whatever was delivered
/// before it and whatever would have followed it.
pub proof fn lemma_buffer_fails_fast<E>(frames: Seq<Result<Frame<Vec<u8>>, E>>, n: int)
    requires
        0 <= n < frames.len(),
        frames[n] is Err,
        forall|k: int| 0 <= k < n ==> frames[k] is Ok,
    ensures
        buffer_frames(frames) == Err::<(Seq<u8>, Option<http::HeaderMap>), E>(frames[n]->Err_0),
{
    lemma_drain_fails_fast(frames, n, Seq::empty(), None);
}

/// The generalisation of [`lemma_buffer_fails_fast`] over the bytes and
/// trailers already collected.
proof fn lemma_drain_fails_fast<E>(
    frames: Seq<Result<Frame<Vec<u8>>, E>>,
    n: int,
    acc: Seq<u8>,
    trailers: Option<http::HeaderMap>,
)
    requires
        0 <= n < frames.len(),
        frames[n] is Err,
        forall|k: int| 0 <= k < n ==> frames[k] is Ok,
    ensures
        drain_frames(frames, acc, trailers) == Err::<(Seq<u8>, Option<http::HeaderMap>), E>(
            frames[n]->Err_0,
        ),
    decreases n,
{
    if n == 0 {
    } else {
        assert(forall|k: int|
            0 <= k < frames.drop_first().len() ==> frames.drop_first()[k] == frames[k + 1]);
        match frames.first() {
            Result::Ok(Frame::Data(d)) => {
                lemma_drain_fails_fast(frames.drop_first(), n - 1, acc + d@, trailers);
            },
            Result::Ok(Frame::Trailers(t)) => {
                lemma_drain_fails_fast(frames.drop_first(), n - 1, acc, Some(t));
            },
            Result::Err(_) => {
                assert(frames[0] is Ok);
                assert(false);
            },
        }
    }
}

} // verus!
