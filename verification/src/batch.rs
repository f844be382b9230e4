use vstd::prelude::*;

verus! {

/// Whether a buffer holding `buf` is due for a flush under a byte
/// threshold: the threshold is met, and the buffer is not empty. An empty
/// buffer is never submitted, whatever the threshold says.
pub open spec fn flush_due(buf: Seq<u8>, threshold: nat) -> bool {
    buf.len() >= threshold && buf.len() > 0
}

/// The batch aggregator's state: one append-only byte buffer accumulating
/// encoded records for the batch in flight, the byte threshold past which
/// the buffer is flushed, and whether the input side has been closed. The
/// buffer is owned exclusively by the single consumer driving this value;
/// a flush hands the whole buffer out and starts a fresh one.
pub struct Aggregator {
    buf: Vec<u8>,
    threshold: usize,
    stopped: bool,
}

impl Aggregator {
    /// The bytes accumulated for the batch in flight, in arrival order.
    pub closed spec fn buffered(&self) -> Seq<u8> {
        self.buf@
    }

    /// The configured flush-by-size threshold, in bytes.
    pub closed spec fn threshold(&self) -> nat {
        self.threshold as nat
    }

    /// Whether the input side has been closed; no accumulation follows.
    pub closed spec fn is_stopped(&self) -> bool {
        self.stopped
    }

    pub fn new(threshold: usize) -> (a: Aggregator)
        ensures
            a.buffered() == Seq::<u8>::empty(),
            a.threshold() == threshold as nat,
            !a.is_stopped(),
    {
        Aggregator { buf: Vec::new(), threshold, stopped: false }
    }

    /// How many bytes the batch in flight holds.
    pub fn len(&self) -> (n: usize)
        ensures
            n == self.buffered().len(),
    {
        self.buf.len()
    }

    /// Append one encoded chunk to the batch in flight. If that takes the
    /// buffer to the threshold, the whole accumulated batch — earlier bytes
    /// first, this chunk last — is handed out for submission and the buffer
    /// starts over empty; otherwise nothing is handed out and every byte
    /// stays, in order.
    pub fn append(&mut self, chunk: &[u8]) -> (flushed: Option<Vec<u8>>)
        requires
            !old(self).is_stopped(),
            old(self).buffered().len() + chunk@.len() <= usize::MAX,
        ensures
            final(self).threshold() == old(self).threshold(),
            !final(self).is_stopped(),
            flush_due(old(self).buffered() + chunk@, old(self).threshold()) ==> {
                &&& flushed matches Some(batch) && batch@ == old(self).buffered() + chunk@
                &&& final(self).buffered() == Seq::<u8>::empty()
            },
            !flush_due(old(self).buffered() + chunk@, old(self).threshold()) ==> {
                &&& flushed is None
                &&& final(self).buffered() == old(self).buffered() + chunk@
            },
    {
        let mut i: usize = 0;
        while i < chunk.len()
            invariant
                i <= chunk@.len(),
                self.buf@ == old(self).buffered() + chunk@.subrange(0, i as int),
                self.threshold == old(self).threshold,
                self.stopped == old(self).stopped,
                old(self).buffered().len() + chunk@.len() <= usize::MAX,
            decreases chunk@.len() - i,
        {
            self.buf.push(chunk[i]);
            i = i + 1;
        }
        proof {
            assert(chunk@.subrange(0, chunk@.len() as int) == chunk@);
        }
        if self.buf.len() >= self.threshold && self.buf.len() > 0 {
            let mut batch: Vec<u8> = Vec::new();
            core::mem::swap(&mut batch, &mut self.buf);
            Some(batch)
        } else {
            None
        }
    }

    /// The periodic flush: on a timer tick, a non-empty buffer is handed
    /// out whole for submission and starts over empty; a tick with an
    /// empty buffer does nothing.
    pub fn tick(&mut self) -> (flushed: Option<Vec<u8>>)
        requires
            !old(self).is_stopped(),
        ensures
            final(self).threshold() == old(self).threshold(),
            !final(self).is_stopped(),
            final(self).buffered() == Seq::<u8>::empty(),
            old(self).buffered().len() > 0 ==> (flushed matches Some(batch) && batch@ == old(
                self,
            ).buffered()),
            old(self).buffered().len() == 0 ==> flushed is None,
    {
        if self.buf.len() > 0 {
            let mut batch: Vec<u8> = Vec::new();
            core::mem::swap(&mut batch, &mut self.buf);
            Some(batch)
        } else {
            None
        }
    }

    /// Close the aggregator: any residual buffered content is handed out
    /// exactly once, as one final batch, and the state becomes terminal.
    /// Closing with an empty buffer submits nothing.
    pub fn close(&mut self) -> (flushed: Option<Vec<u8>>)
        requires
            !old(self).is_stopped(),
        ensures
            final(self).is_stopped(),
            final(self).buffered() == Seq::<u8>::empty(),
            old(self).buffered().len() > 0 ==> (flushed matches Some(batch) && batch@ == old(
                self,
            ).buffered()),
            old(self).buffered().len() == 0 ==> flushed is None,
    {
        self.stopped = true;
        if self.buf.len() > 0 {
            let mut batch: Vec<u8> = Vec::new();
            core::mem::swap(&mut batch, &mut self.buf);
            Some(batch)
        } else {
            None
        }
    }
}

/// Batch ordering law: chunks accumulate by concatenation, so within any
/// buffer — and hence within any batch handed out, which is always the
/// buffer whole — a chunk appended earlier occupies positions wholly
/// before one appended later, whatever lay in the buffer before them.
pub proof fn lemma_batch_order(prefix: Seq<u8>, a: Seq<u8>, b: Seq<u8>)
    ensures
        (prefix + a + b).subrange(
            prefix.len() as int,
            (prefix.len() + a.len()) as int,
        ) == a,
        (prefix + a + b).subrange(
            (prefix.len() + a.len()) as int,
            (prefix.len() + a.len() + b.len()) as int,
        ) == b,
{
    assert((prefix + a + b).subrange(prefix.len() as int, (prefix.len() + a.len()) as int) =~= a);
    assert((prefix + a + b).subrange(
        (prefix.len() + a.len()) as int,
        (prefix.len() + a.len() + b.len()) as int,
    ) =~= b);
}

} // verus!
