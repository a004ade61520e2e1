//! Draining the replies the terminal queued for the child (DA, DSR, encoded
//! input, ...). The facade hands them out a bounded chunk at a time; this is
//! the bookkeeping that decides when the queue is empty and what was read.
use vstd::prelude::*;

verus! {

/// The most bytes one `shitty_vt_take_replies` call is offered.
pub const REPLY_CHUNK: usize = 1024;

/// A drain in progress: the bytes read so far, and whether the queue is
/// known to be empty.
pub struct DrainView {
    pub replies: Seq<u8>,
    pub done: bool,
}

/// Taking one chunk: its bytes are appended, and the queue is empty once a
/// chunk comes back short of [`REPLY_CHUNK`] (an empty chunk included).
pub open spec fn after_chunk(v: DrainView, chunk: Seq<u8>) -> DrainView {
    DrainView { replies: v.replies + chunk, done: chunk.len() < REPLY_CHUNK }
}

/// Feeding `chunks` one after another to a drain in state `v`, stopping as
/// soon as it is done.
pub open spec fn after_chunks(v: DrainView, chunks: Seq<Seq<u8>>) -> DrainView
    decreases chunks.len(),
{
    if chunks.len() == 0 || v.done {
        v
    } else {
        after_chunks(after_chunk(v, chunks[0]), chunks.drop_first())
    }
}

/// All the chunks' bytes, in order.
pub open spec fn concat_chunks(chunks: Seq<Seq<u8>>) -> Seq<u8>
    decreases chunks.len(),
{
    if chunks.len() == 0 {
        Seq::empty()
    } else {
        chunks[0] + concat_chunks(chunks.drop_first())
    }
}

/// Replies drained in chunks.
pub struct ReplyDrain {
    replies: Vec<u8>,
    done: bool,
}

impl View for ReplyDrain {
    type V = DrainView;

    closed spec fn view(&self) -> DrainView {
        DrainView { replies: self.replies@, done: self.done }
    }
}

impl ReplyDrain {
    /// Nothing read yet.
    pub fn new() -> (drain: ReplyDrain)
        ensures
            drain@ == (DrainView { replies: Seq::empty(), done: false }),
    {
        ReplyDrain { replies: Vec::new(), done: false }
    }

    /// Whether another chunk should be taken.
    pub fn wants_more(&self) -> (more: bool)
        ensures
            more == !self@.done,
    {
        !self.done
    }

    /// Records one chunk the facade returned.
    pub fn accept(&mut self, chunk: &[u8])
        requires
            !old(self)@.done,
            chunk@.len() <= REPLY_CHUNK,
        ensures
            final(self)@ == after_chunk(old(self)@, chunk@),
    {
        let ghost before = self.replies@;
        let mut i: usize = 0;
        while i < chunk.len()
            invariant
                0 <= i <= chunk@.len(),
                self.replies@ == before + chunk@.take(i as int),
            decreases chunk@.len() - i,
        {
            self.replies.push(chunk[i]);
            assert(chunk@.take(i as int + 1) == chunk@.take(i as int).push(chunk@[i as int]));
            i = i + 1;
        }
        assert(chunk@.take(i as int) == chunk@);
        self.done = chunk.len() < REPLY_CHUNK;
    }

    /// Everything read.
    pub fn into_replies(self) -> (replies: Vec<u8>)
        ensures
            replies@ == self@.replies,
    {
        self.replies
    }
}

/// Draining reads the whole queue and nothing else: when every chunk but the
/// last is full and the last is short, a fresh drain ends done, holding the
/// chunks' bytes in order; it is not done before the last chunk.
pub proof fn lemma_drain_reads_every_chunk(v: DrainView, chunks: Seq<Seq<u8>>)
    requires
        !v.done,
        chunks.len() > 0,
        forall|i: int| 0 <= i < chunks.len() - 1 ==> #[trigger] chunks[i].len() == REPLY_CHUNK,
        chunks.last().len() < REPLY_CHUNK,
    ensures
        after_chunks(v, chunks) == (DrainView { replies: v.replies + concat_chunks(chunks), done: true }),
    decreases chunks.len(),
{
    let next = after_chunk(v, chunks[0]);
    if chunks.len() == 1 {
        assert(chunks[0] == chunks.last());
        assert(chunks.drop_first().len() == 0);
        assert(after_chunks(v, chunks) == after_chunks(next, chunks.drop_first()));
        assert(concat_chunks(chunks.drop_first()) == Seq::<u8>::empty());
        assert(v.replies + concat_chunks(chunks) =~= v.replies + chunks[0]);
    } else {
        assert(chunks[0].len() == REPLY_CHUNK);
        let rest = chunks.drop_first();
        assert forall|i: int| 0 <= i < rest.len() - 1 implies #[trigger] rest[i].len() == REPLY_CHUNK by {
            assert(rest[i] == chunks[i + 1]);
        }
        assert(rest.last() == chunks.last());
        assert(!next.done);
        assert(after_chunks(v, chunks) == after_chunks(next, rest));
        lemma_drain_reads_every_chunk(next, rest);
        assert(v.replies + chunks[0] + concat_chunks(rest) =~= v.replies + concat_chunks(chunks));
    }
}

} // verus!
