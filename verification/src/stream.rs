//! The chunk-level model of one audio transfer.
//!
//! A transfer is a single-use, ordered, finite sequence of byte chunks.
//! Chunks are recorded exactly in the order they arrive — no merging,
//! splitting or reordering — and the payload of the transfer is their
//! concatenation. A non-2xx answer on the streaming call opens the
//! transfer already exhausted with zero chunks (degrade-to-silence); a
//! mid-transfer network failure truncates it in the `Failed` state, which
//! a consumer must treat as end-of-stream with a flagged failure; and
//! cancelling it is a terminal step after which no chunk can be recorded.

use vstd::prelude::*;
use crate::spec_is_success;
use crate::is_success;

verus! {

/// Whether a transfer is still producing chunks, and if not, how it ended.
#[derive(Clone, Copy, Debug, PartialEq, Eq, Structural)]
pub enum StreamState {
    Receiving,
    Exhausted,
    Failed,
    Cancelled,
}

/// One audio transfer: the chunks received so far, in arrival order, and
/// the state of the underlying connection.
pub struct ByteStream {
    pub chunks: Vec<Vec<u8>>,
    pub state: StreamState,
}

impl ByteStream {
    /// The chunks received so far, in arrival order.
    pub open spec fn spec_chunks(self) -> Seq<Seq<u8>> {
        self.chunks@.map_values(|c: Vec<u8>| c@)
    }

    /// The payload: the concatenation of the chunks, in arrival order.
    pub open spec fn spec_bytes(self) -> Seq<u8> {
        self.spec_chunks().flatten()
    }

    /// Once a transfer has ended — exhausted, failed or cancelled — it
    /// never produces another chunk.
    pub open spec fn is_terminal(self) -> bool {
        !(self.state is Receiving)
    }

    /// Opens a transfer from the status of the streaming call. A 2xx
    /// answer starts receiving; anything else yields the empty, already
    /// exhausted transfer rather than a failure, so "nothing to play" and
    /// "track ended" look alike to the consumer.
    pub fn open(status: u16) -> (s: ByteStream)
        ensures
            s.spec_chunks() == Seq::<Seq<u8>>::empty(),
            s.spec_bytes() == Seq::<u8>::empty(),
            spec_is_success(status) ==> s.state is Receiving,
            !spec_is_success(status) ==> s.state is Exhausted,
    {
        let s = ByteStream {
            chunks: Vec::new(),
            state: if is_success(status) {
                StreamState::Receiving
            } else {
                StreamState::Exhausted
            },
        };
        proof {
            assert(s.spec_chunks() =~= Seq::<Seq<u8>>::empty());
            assert(s.spec_bytes() =~= Seq::<u8>::empty());
        }
        s
    }

    /// Records the next chunk exactly as it arrived: appended after all
    /// earlier chunks, extending the payload by exactly its bytes.
    pub fn push_chunk(&mut self, chunk: Vec<u8>)
        requires
            old(self).state is Receiving,
        ensures
            final(self).state is Receiving,
            final(self).spec_chunks() == old(self).spec_chunks().push(chunk@),
            final(self).spec_bytes() == old(self).spec_bytes() + chunk@,
    {
        proof {
            let sc = self.spec_chunks();
            sc.lemma_flatten_push(chunk@);
        }
        let ghost before = self.spec_chunks();
        self.chunks.push(chunk);
        proof {
            assert(self.spec_chunks() =~= before.push(chunk@));
        }
    }

    /// The server has sent its last chunk: the transfer is exhausted.
    pub fn finish(&mut self)
        requires
            old(self).state is Receiving,
        ensures
            final(self).state is Exhausted,
            final(self).spec_chunks() == old(self).spec_chunks(),
            final(self).spec_bytes() == old(self).spec_bytes(),
    {
        self.state = StreamState::Exhausted;
    }

    /// A mid-transfer network failure: the sequence is truncated with a
    /// terminal failure mark — never silently passed off as success —
    /// and the chunks received so far are kept.
    pub fn fail(&mut self)
        requires
            old(self).state is Receiving,
        ensures
            final(self).state is Failed,
            final(self).spec_chunks() == old(self).spec_chunks(),
            final(self).spec_bytes() == old(self).spec_bytes(),
    {
        self.state = StreamState::Failed;
    }

    /// The consumer drops the transfer before exhaustion: production
    /// stops at once, and no partial-chunk state is retained.
    pub fn cancel(&mut self)
        requires
            old(self).state is Receiving,
        ensures
            final(self).state is Cancelled,
            final(self).spec_chunks() == old(self).spec_chunks(),
            final(self).spec_bytes() == old(self).spec_bytes(),
    {
        self.state = StreamState::Cancelled;
    }

    /// The whole payload, assembled: exactly the bytes of the chunks, in
    /// arrival order.
    pub fn assembled(&self) -> (r: Vec<u8>)
        ensures
            r@ == self.spec_bytes(),
    {
        let mut out: Vec<u8> = Vec::new();
        let mut i: usize = 0;
        while i < self.chunks.len()
            invariant
                i <= self.chunks@.len(),
                out@ == self.spec_chunks().take(i as int).flatten(),
            decreases self.chunks@.len() - i,
        {
            let chunk = &self.chunks[i];
            let mut j: usize = 0;
            while j < chunk.len()
                invariant
                    i < self.chunks@.len(),
                    j <= chunk@.len(),
                    chunk@ == self.spec_chunks()[i as int],
                    out@ == self.spec_chunks().take(i as int).flatten() + chunk@.take(j as int),
                decreases chunk@.len() - j,
            {
                out.push(chunk[j]);
                proof {
                    assert(chunk@.take(j as int).push(chunk@[j as int]) =~= chunk@.take(
                        j + 1 as int,
                    ));
                }
                j += 1;
            }
            proof {
                let sc = self.spec_chunks();
                assert(chunk@.take(j as int) =~= chunk@);
                sc.take(i as int).lemma_flatten_push(sc[i as int]);
                assert(sc.take(i as int).push(sc[i as int]) =~= sc.take(i + 1 as int));
            }
            i += 1;
        }
        proof {
            assert(self.spec_chunks().take(i as int) =~= self.spec_chunks());
        }
        out
    }

    /// The number of chunks received so far.
    pub fn chunk_count(&self) -> (n: usize)
        ensures
            n == self.spec_chunks().len(),
    {
        self.chunks.len()
    }
}

} // verus!
