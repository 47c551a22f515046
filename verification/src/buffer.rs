//! The intake buffer.
//!
//! A FIFO sequence of pending batches. Producers append with [`IntakeBuffer::enqueue`];
//! the flush loop takes everything at once with [`IntakeBuffer::drain`], which swaps the
//! sequence for a fresh empty one so that no batch is delivered twice or left
//! behind. The buffer is unbounded: an unreachable collector grows it rather
//! than blocking producers. Callers that share one buffer between producers
//! and the flush loop put it behind a mutual-exclusion lock; each operation
//! here is one bounded critical section with no I/O.

use vstd::prelude::*;

use crate::batch::Batch;

verus! {

/// The buffer as its callers see it: the sequence of batches enqueued since
/// the last drain, oldest first.
pub struct IntakeBuffer {
    items: Vec<Batch>,
}

impl View for IntakeBuffer {
    type V = Seq<Batch>;

    closed spec fn view(&self) -> Seq<Batch> {
        self.items@
    }
}

impl IntakeBuffer {
    /// An empty buffer.
    pub fn new() -> (r: IntakeBuffer)
        ensures
            r@ == Seq::<Batch>::empty(),
    {
        IntakeBuffer { items: Vec::new() }
    }

    /// Appends one batch at the end. Never fails, never blocks on I/O.
    pub fn enqueue(&mut self, batch: Batch)
        ensures
            final(self)@ == old(self)@.push(batch),
    {
        self.items.push(batch);
    }

    /// Atomically takes every pending batch, in enqueue order, leaving the
    /// buffer empty: one swap against a fresh sequence, so a batch drained
    /// here is owned by the caller alone from now on.
    pub fn drain(&mut self) -> (r: Vec<Batch>)
        ensures
            r@ == old(self)@,
            final(self)@ == Seq::<Batch>::empty(),
    {
        let mut taken: Vec<Batch> = Vec::new();
        core::mem::swap(&mut self.items, &mut taken);
        taken
    }

    /// How many batches are pending.
    pub fn len(&self) -> (n: usize)
        ensures
            n == self@.len(),
    {
        self.items.len()
    }
}

/// The buffer contents after enqueueing `bs`, one call at a time, into an
/// empty buffer: each call pushes at the end, as [`IntakeBuffer::enqueue`] ensures.
pub open spec fn buffer_after_enqueues(bs: Seq<Batch>) -> Seq<Batch>
    decreases bs.len(),
{
    if bs.len() == 0 {
        Seq::<Batch>::empty()
    } else {
        buffer_after_enqueues(bs.drop_last()).push(bs.last())
    }
}

/// Law: a drain returns exactly what was enqueued, in enqueue order. Any
/// sequence of enqueues into an empty buffer leaves exactly that sequence, so
/// the following drain returns it whole and leaves the buffer empty.
pub proof fn lemma_enqueues_kept_in_order(bs: Seq<Batch>)
    ensures
        buffer_after_enqueues(bs) == bs,
    decreases bs.len(),
{
    if bs.len() == 0 {
        assert(buffer_after_enqueues(bs) =~= bs);
    } else {
        lemma_enqueues_kept_in_order(bs.drop_last());
        assert(buffer_after_enqueues(bs) =~= bs);
    }
}

/// Law: no loss and no duplication. After any `n` enqueues the buffer holds
/// exactly `n` batches, whatever interleaving order the lock admitted them in.
pub proof fn lemma_enqueue_count(bs: Seq<Batch>)
    ensures
        buffer_after_enqueues(bs).len() == bs.len(),
{
    lemma_enqueues_kept_in_order(bs);
}

} // verus!
