//! [`Bufferer`]: the strategy that drains a streaming body into
//! buffered parts.

use vstd::prelude::*;
use crate::buf::Buf;
use crate::buffered::Buffered;

verus! {

/// The ability to buffer a streaming body of type `InBody`.
///
/// Buffering is all or nothing: either the whole stream is drained and
/// every data byte and the trailers are collected, or the stream's error
/// is the outcome and nothing partial is exposed.
pub trait Bufferer<InBody> {
    /// The representation the data is aggregated into.
    type Data: Buf;

    /// An error that can occur while buffering.
    type Error;

    /// What the caller must provide for buffering to be possible; for the
    /// strategies of this crate at most a machine limit on the data size.
    open spec fn buffer_req(&self, body: InBody) -> bool {
        true
    }

    /// What buffering yields: the stream's data bytes in order and its
    /// last trailers, or the stream's first error.
    spec fn spec_buffer(&self, body: InBody) -> Result<
        (Seq<u8>, Option<http::HeaderMap>),
        Self::Error,
    >;

    /// Drain the given body to completion and collect it.
    fn buffer(&self, body: InBody) -> (r: Result<Buffered<Self::Data>, Self::Error>)
        requires
            self.buffer_req(body),
        ensures
            match r {
                Ok(b) => {
                    &&& self.spec_buffer(body) matches Ok(v)
                    &&& b.data.buf_view() == self.spec_buffer(body)->Ok_0.0
                    &&& b.trailers == self.spec_buffer(body)->Ok_0.1
                },
                Err(e) => self.spec_buffer(body) == Err::<
                    (Seq<u8>, Option<http::HeaderMap>),
                    Self::Error,
                >(e),
            },
    ;
}

} // verus!
