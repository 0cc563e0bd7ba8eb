//! The read-only byte-buffer capability, and a chunked buffer that
//! avoids concatenating its parts into one allocation.

use vstd::prelude::*;

verus! {

/// The ability to be read as one logical sequence of bytes.
///
/// This is the read-only projection that validation runs over: a buffer
/// exposes its length and its bytes, and no operation mutates it.
pub trait Buf {
    /// The byte content of this buffer as one flat sequence.
    spec fn buf_view(&self) -> Seq<u8>;

    /// The number of readable bytes.
    fn remaining(&self) -> (n: usize)
        ensures
            n == self.buf_view().len(),
    ;

    /// The byte at position `i`.
    fn byte_at(&self, i: usize) -> (b: u8)
        requires
            i < self.buf_view().len(),
        ensures
            b == self.buf_view()[i as int],
    ;

    /// The whole content, copied out as one contiguous vector.
    fn copy_to_vec(&self) -> (v: Vec<u8>)
        ensures
            v@ == self.buf_view(),
    ;
}

impl Buf for Vec<u8> {
    open spec fn buf_view(&self) -> Seq<u8> {
        self@
    }

    fn remaining(&self) -> (n: usize) {
        self.len()
    }

    fn byte_at(&self, i: usize) -> (b: u8) {
        self[i]
    }

    fn copy_to_vec(&self) -> (v: Vec<u8>) {
        copy_bytes(self.as_slice())
    }
}

/// Copy a byte slice into a fresh vector.
pub fn copy_bytes(s: &[u8]) -> (v: Vec<u8>)
    ensures
        v@ == s@,
{
    let mut v: Vec<u8> = Vec::new();
    let mut i: usize = 0;
    while i < s.len()
        invariant
            i <= s@.len(),
            v@ == s@.subrange(0, i as int),
        decreases s@.len() - i,
    {
        v.push(s[i]);
        proof {
            assert(v@ =~= s@.subrange(0, i + 1));
        }
        i = i + 1;
    }
    proof {
        assert(v@ =~= s@);
    }
    v
}

/// The flat content of a sequence of chunks, in order.
spec fn chunks_view(chunks: Seq<Seq<u8>>) -> Seq<u8>
    decreases chunks.len(),
{
    if chunks.len() == 0 {
        Seq::empty()
    } else {
        chunks.first() + chunks_view(chunks.drop_first())
    }
}

/// Appending a chunk at the end appends its bytes at the end of the flat view.
proof fn lemma_chunks_view_push(chunks: Seq<Seq<u8>>, chunk: Seq<u8>)
    ensures
        chunks_view(chunks.push(chunk)) == chunks_view(chunks) + chunk,
    decreases chunks.len(),
{
    if chunks.len() == 0 {
        let p = chunks.push(chunk);
        assert(p.first() == chunk);
        assert(p.drop_first() =~= Seq::<Seq<u8>>::empty());
        assert(chunks_view(p) == chunk + chunks_view(Seq::<Seq<u8>>::empty()));
        assert(chunks_view(p) =~= chunks_view(chunks) + chunk);
    } else {
        assert(chunks.push(chunk).drop_first() =~= chunks.drop_first().push(chunk));
        lemma_chunks_view_push(chunks.drop_first(), chunk);
        assert(chunks_view(chunks.push(chunk)) =~= chunks_view(chunks) + chunk);
    }
}

/// A buffer kept as the list of chunks in which the data arrived.
///
/// Viewing it flattens the chunks in order; the bytes are never copied
/// into one contiguous allocation.
#[derive(Debug)]
pub struct ChunkedBuf {
    /// The chunks, earliest first.
    chunks: Vec<Vec<u8>>,
    /// The total number of bytes over all chunks.
    len: usize,
}

impl ChunkedBuf {
    /// The chunk list as a sequence of byte sequences.
    spec fn chunks_seq(&self) -> Seq<Seq<u8>> {
        self.chunks@.map_values(|c: Vec<u8>| c@)
    }

    #[verifier::type_invariant]
    spec fn wf(&self) -> bool {
        self.len == chunks_view(self.chunks_seq()).len()
    }

    /// An empty chunked buffer.
    pub fn new() -> (r: ChunkedBuf)
        ensures
            r.buf_view() == Seq::<u8>::empty(),
    {
        let r = ChunkedBuf { chunks: Vec::new(), len: 0 };
        proof {
            assert(r.chunks_seq() =~= Seq::<Seq<u8>>::empty());
        }
        r
    }

    /// Add a chunk at the end; its bytes follow all bytes already held.
    pub fn push_chunk(&mut self, chunk: Vec<u8>)
        requires
            old(self).buf_view().len() + chunk@.len() <= usize::MAX,
        ensures
            final(self).buf_view() == old(self).buf_view() + chunk@,
    {
        proof {
            use_type_invariant(&*self);
        }
        let mut taken = ChunkedBuf { chunks: Vec::new(), len: 0 };
        proof {
            assert(taken.chunks_seq() =~= Seq::<Seq<u8>>::empty());
        }
        core::mem::swap(self, &mut taken);
        let ChunkedBuf { mut chunks, len } = taken;
        let ghost prior = chunks@.map_values(|c: Vec<u8>| c@);
        let new_len = len + chunk.len();
        chunks.push(chunk);
        proof {
            assert(chunks@.map_values(|c: Vec<u8>| c@) =~= prior.push(chunk@));
            lemma_chunks_view_push(prior, chunk@);
        }
        let mut replacement = ChunkedBuf { chunks, len: new_len };
        core::mem::swap(self, &mut replacement);
    }
}

impl Buf for ChunkedBuf {
    closed spec fn buf_view(&self) -> Seq<u8> {
        chunks_view(self.chunks_seq())
    }

    fn remaining(&self) -> (n: usize) {
        proof {
            use_type_invariant(&*self);
        }
        self.len
    }

    fn byte_at(&self, i: usize) -> (b: u8) {
        let mut k: usize = 0;
        let mut rem: usize = i;
        proof {
            assert(self.chunks_seq().skip(0) =~= self.chunks_seq());
        }
        while k < self.chunks.len()
            invariant
                k <= self.chunks@.len(),
                rem <= i,
                rem < chunks_view(self.chunks_seq().skip(k as int)).len(),
                chunks_view(self.chunks_seq().skip(k as int))[rem as int]
                    == self.buf_view()[i as int],
            decreases self.chunks@.len() - k,
        {
            proof {
                assert(self.chunks_seq().skip(k as int).first() == self.chunks@[k as int]@);
                assert(self.chunks_seq().skip(k as int).drop_first() =~= self.chunks_seq().skip(
                    k + 1,
                ));
            }
            let chunk_len = self.chunks[k].len();
            if rem < chunk_len {
                return self.chunks[k][rem];
            }
            rem = rem - chunk_len;
            k = k + 1;
        }
        proof {
            assert(self.chunks_seq().skip(self.chunks@.len() as int) =~= Seq::<Seq<u8>>::empty());
            assert(false);
        }
        0
    }

    fn copy_to_vec(&self) -> (v: Vec<u8>) {
        let mut v: Vec<u8> = Vec::new();
        let mut k: usize = 0;
        while k < self.chunks.len()
            invariant
                k <= self.chunks@.len(),
                v@ == chunks_view(self.chunks_seq().take(k as int)),
            decreases self.chunks@.len() - k,
        {
            let mut chunk = copy_bytes(self.chunks[k].as_slice());
            v.append(&mut chunk);
            proof {
                assert(self.chunks_seq().take(k + 1) =~= self.chunks_seq().take(k as int).push(
                    self.chunks@[k as int]@,
                ));
                lemma_chunks_view_push(self.chunks_seq().take(k as int), self.chunks@[k as int]@);
            }
            k = k + 1;
        }
        proof {
            assert(self.chunks_seq().take(self.chunks@.len() as int) =~= self.chunks_seq());
        }
        v
    }
}

} // verus!
