//! The buffer between a rendering surface's synchronous writes and a
//! session's message-oriented transport: writes accumulate, and each flush
//! hands out everything written since the previous flush as one frame.
use vstd::prelude::*;

verus! {

/// Bytes written since the last flush.
pub struct FrameBuffer {
    pending: Vec<u8>,
}

/// Buffer contents after writing `chunk`.
pub open spec fn buffer_write(pending: Seq<u8>, chunk: Seq<u8>) -> Seq<u8> {
    pending + chunk
}

/// The frame that a flush hands out, and the buffer contents after it.
pub open spec fn buffer_flush(pending: Seq<u8>) -> (Seq<u8>, Seq<u8>) {
    (pending, Seq::empty())
}

impl View for FrameBuffer {
    type V = Seq<u8>;

    closed spec fn view(&self) -> Seq<u8> {
        self.pending@
    }
}

impl FrameBuffer {
    /// An empty buffer.
    pub fn new() -> (r: Self)
        ensures
            r@ == Seq::<u8>::empty(),
    {
        FrameBuffer { pending: Vec::new() }
    }

    /// Appends `buf`; never fails. Returns the number of bytes taken.
    pub fn write(&mut self, buf: &[u8]) -> (n: usize)
        ensures
            final(self)@ == buffer_write(old(self)@, buf@),
            n == buf@.len(),
    {
        let mut i: usize = 0;
        while i < buf.len()
            invariant
                i <= buf@.len(),
                self.pending@ == old(self)@ + buf@.subrange(0, i as int),
            decreases buf.len() - i,
        {
            self.pending.push(buf[i]);
            i += 1;
            assert(self.pending@ =~= old(self)@ + buf@.subrange(0, i as int));
        }
        assert(buf@.subrange(0, buf@.len() as int) =~= buf@);
        buf.len()
    }

    /// Takes everything written since the last flush as one frame and
    /// leaves the buffer empty.
    pub fn flush(&mut self) -> (frame: Vec<u8>)
        ensures
            (frame@, final(self)@) == buffer_flush(old(self)@),
    {
        let mut frame: Vec<u8> = Vec::new();
        std::mem::swap(&mut frame, &mut self.pending);
        frame
    }

    /// Number of bytes waiting for the next flush.
    pub fn pending_len(&self) -> (r: usize)
        ensures
            r == self@.len(),
    {
        self.pending.len()
    }
}

// ── Frame atomicity ────────────────────────────────────────────

/// The buffer contents and the frames handed out after replaying `events`
/// on an empty buffer, where `Some(chunk)` is a write and `None` a flush.
pub open spec fn replay(events: Seq<Option<Seq<u8>>>) -> (Seq<u8>, Seq<Seq<u8>>)
    decreases events.len(),
{
    if events.len() == 0 {
        (Seq::empty(), Seq::empty())
    } else {
        let (pending, frames) = replay(events.drop_last());
        match events.last() {
            Some(chunk) => (buffer_write(pending, chunk), frames),
            None => {
                let (frame, rest) = buffer_flush(pending);
                (rest, frames.push(frame))
            },
        }
    }
}

/// Number of flushes in `events`.
pub open spec fn flush_count(events: Seq<Option<Seq<u8>>>) -> nat
    decreases events.len(),
{
    if events.len() == 0 {
        0
    } else {
        flush_count(events.drop_last()) + if events.last() is None {
            1nat
        } else {
            0nat
        }
    }
}

/// All bytes written in `events`, in order.
pub open spec fn written(events: Seq<Option<Seq<u8>>>) -> Seq<u8>
    decreases events.len(),
{
    if events.len() == 0 {
        Seq::empty()
    } else {
        written(events.drop_last()) + match events.last() {
            Some(chunk) => chunk,
            None => Seq::empty(),
        }
    }
}

/// The bytes written in `events` after its last flush.
pub open spec fn written_since_flush(events: Seq<Option<Seq<u8>>>) -> Seq<u8>
    decreases events.len(),
{
    if events.len() == 0 {
        Seq::empty()
    } else {
        match events.last() {
            Some(chunk) => written_since_flush(events.drop_last()) + chunk,
            None => Seq::empty(),
        }
    }
}

/// The frames joined end to end.
pub open spec fn joined(frames: Seq<Seq<u8>>) -> Seq<u8>
    decreases frames.len(),
{
    if frames.len() == 0 {
        Seq::empty()
    } else {
        joined(frames.drop_last()) + frames.last()
    }
}

/// However writes and flushes interleave, each flush hands out exactly one
/// frame, that frame holds exactly the bytes written since the previous
/// flush, and no byte is lost, repeated or reordered: the frames followed
/// by what is still buffered are everything written.
pub proof fn lemma_frame_atomicity(events: Seq<Option<Seq<u8>>>)
    ensures
        replay(events).1.len() == flush_count(events),
        replay(events).0 == written_since_flush(events),
        events.len() > 0 && events.last() is None ==> replay(events).1.last()
            == written_since_flush(events.drop_last()),
        joined(replay(events).1) + replay(events).0 == written(events),
    decreases events.len(),
{
    if events.len() > 0 {
        let prev = events.drop_last();
        lemma_frame_atomicity(prev);
        let (pending, frames) = replay(prev);
        match events.last() {
            Some(chunk) => {
                assert(joined(frames) + (pending + chunk) =~= (joined(frames) + pending) + chunk);
            },
            None => {
                assert(frames.push(pending).drop_last() =~= frames);
                assert(joined(frames.push(pending)) + Seq::<u8>::empty() =~= joined(frames)
                    + pending);
                assert(written(prev) + Seq::<u8>::empty() =~= written(prev));
            },
        }
    } else {
        assert(Seq::<u8>::empty() + Seq::<u8>::empty() =~= Seq::<u8>::empty());
    }
}

} // verus!
