//! The stream batching state machine: the core of the delivery
//! pipeline.
//!
//! A `StreamBatcher` consumes an unbounded sequence of records one at
//! a time, groups them into batches of a fixed size, and hands each
//! full batch out for dispatch.  The surrounding I/O layer drives it:
//! it pushes each record it pulls from the input queue, dispatches the
//! batch a push or a close hands back, and reports the outcome before
//! pulling more — so a slow endpoint throttles the producer through
//! the queue.  A failed dispatch is recovered: the error is handed
//! back for logging and the next batch is still accepted and
//! dispatched.
//!
//! The batcher carries its whole history as ghost state: every record
//! accepted and every batch handed out.  Its invariant ties them
//! together, and [`lemma_pipeline_complete`] states the pipeline
//! guarantee: a completed run dispatches every accepted record exactly
//! once, in arrival order, in `ceil(m / n)` batches.

use vstd::prelude::*;
use vstd::arithmetic::div_mod::lemma_fundamental_div_mod_converse;

use crate::error::Error;

verus! {

/// Where a batching run stands.
#[derive(Clone, Copy, Debug, PartialEq, Eq, Structural)]
pub enum BatcherState {
    /// Collecting records into the buffer; the input is still open.
    Accumulating,
    /// A full batch has been handed out and its dispatch outcome is
    /// awaited.
    Flushing,
    /// The input closed with a partial batch buffered; its dispatch
    /// outcome is awaited.
    Draining,
    /// The run is complete.
    Done,
}

/// The number of batches `m` records fill at `n` records a batch.
pub open spec fn ceil_div(m: nat, n: nat) -> nat
    recommends
        n > 0,
{
    ((m + n - 1) / (n as int)) as nat
}

/// The stream batching state machine.
pub struct StreamBatcher<T> {
    /// The fixed batch size; at least one.
    pub batch_size: usize,
    /// Records accepted but not yet handed out.
    pub buffer: Vec<T>,
    pub state: BatcherState,
    /// Every record accepted so far, in arrival order.
    pub history: Ghost<Seq<T>>,
    /// Every batch handed out so far, in order.
    pub batches: Ghost<Seq<Seq<T>>>,
}

impl<T> StreamBatcher<T> {
    /// The batcher's invariant: the batches handed out so far,
    /// followed by the buffer, are exactly the accepted records in
    /// arrival order; every batch handed out was full, except that the
    /// final one of a draining run may be partial; and the buffer only
    /// holds records while accumulating.
    pub open spec fn wf(self) -> bool {
        &&& self.batch_size >= 1
        &&& (self.state is Accumulating ==> self.buffer@.len() < self.batch_size)
        &&& (!(self.state is Accumulating) ==> self.buffer@.len() == 0)
        &&& self.batches@.flatten() + self.buffer@ == self.history@
        &&& (forall|i: int|
            0 <= i < self.batches@.len() ==> 1 <= (#[trigger] self.batches@[i]).len()
                <= self.batch_size)
        &&& ((self.state is Accumulating || self.state is Flushing) ==> forall|i: int|
            0 <= i < self.batches@.len() ==> (#[trigger] self.batches@[i]).len()
                == self.batch_size)
        &&& ((self.state is Draining || self.state is Done) ==> forall|i: int|
            0 <= i < self.batches@.len() - 1 ==> (#[trigger] self.batches@[i]).len()
                == self.batch_size)
    }

    /// Creates a batcher.  A batch size of zero is invalid and is
    /// rejected here, in all cases.
    pub fn new(batch_size: usize) -> (r: Result<Self, Error>)
        ensures
            batch_size == 0 ==> (r matches Err(e) && e matches Error::Buffer(msg) && msg@
                == "batch size must be at least 1"@),
            batch_size >= 1 ==> (r matches Ok(b) && b.wf() && b.batch_size == batch_size
                && b.state is Accumulating && b.buffer@ == Seq::<T>::empty() && b.history@
                == Seq::<T>::empty() && b.batches@ == Seq::<Seq<T>>::empty()),
    {
        if batch_size == 0 {
            Err(Error::Buffer("batch size must be at least 1"))
        } else {
            let b = StreamBatcher {
                batch_size,
                buffer: Vec::new(),
                state: BatcherState::Accumulating,
                history: Ghost(Seq::empty()),
                batches: Ghost(Seq::empty()),
            };
            assert(b.batches@.flatten() + b.buffer@ =~= b.history@);
            Ok(b)
        }
    }

    /// Accepts the next record of the input.  When the record fills
    /// the buffer to the batch size, the full batch is handed back for
    /// dispatch and the batcher awaits the dispatch outcome; otherwise
    /// the record is buffered.
    pub fn push(&mut self, record: T) -> (dispatch: Option<Vec<T>>)
        requires
            old(self).wf(),
            old(self).state is Accumulating,
        ensures
            final(self).wf(),
            final(self).batch_size == old(self).batch_size,
            final(self).history@ == old(self).history@.push(record),
            match dispatch {
                None => {
                    &&& final(self).state is Accumulating
                    &&& final(self).buffer@ == old(self).buffer@.push(record)
                    &&& final(self).batches@ == old(self).batches@
                },
                Some(full) => {
                    &&& final(self).state is Flushing
                    &&& full@ == old(self).buffer@.push(record)
                    &&& full@.len() == old(self).batch_size
                    &&& final(self).buffer@ == Seq::<T>::empty()
                    &&& final(self).batches@ == old(self).batches@.push(full@)
                },
            },
    {
        self.buffer.push(record);
        self.history = Ghost(self.history@.push(record));
        proof {
            assert(self.batches@.flatten() + self.buffer@ =~= self.history@);
        }
        if self.buffer.len() == self.batch_size {
            let mut full: Vec<T> = Vec::new();
            core::mem::swap(&mut self.buffer, &mut full);
            self.state = BatcherState::Flushing;
            self.batches = Ghost(self.batches@.push(full@));
            proof {
                broadcast use Seq::lemma_flatten_push;

                assert(self.batches@.flatten() + self.buffer@ =~= self.history@);
            }
            Some(full)
        } else {
            None
        }
    }

    /// Records the outcome of the dispatch of the batch most recently
    /// handed out.  A failure is recovered: it is handed back so the
    /// caller can log it, and the run goes on — after a mid-stream
    /// dispatch the batcher accumulates again, after the final
    /// draining dispatch it completes.
    pub fn dispatch_resolved(&mut self, outcome: Result<Vec<u8>, Error>) -> (recovered: Option<
        Error,
    >)
        requires
            old(self).wf(),
            old(self).state is Flushing || old(self).state is Draining,
        ensures
            final(self).wf(),
            final(self).batch_size == old(self).batch_size,
            final(self).history@ == old(self).history@,
            final(self).batches@ == old(self).batches@,
            final(self).buffer@ == old(self).buffer@,
            old(self).state is Flushing ==> final(self).state is Accumulating,
            old(self).state is Draining ==> final(self).state is Done,
            match outcome {
                Ok(_) => recovered is None,
                Err(e) => recovered == Some(e),
            },
    {
        let recovered = match outcome {
            Ok(_) => None,
            Err(e) => Some(e),
        };
        match self.state {
            BatcherState::Flushing => {
                self.state = BatcherState::Accumulating;
            },
            _ => {
                self.state = BatcherState::Done;
            },
        }
        recovered
    }

    /// Closes the input.  A buffered partial batch is handed back for
    /// its final dispatch and the batcher drains; an empty buffer
    /// completes the run at once, with nothing dispatched.
    pub fn close(&mut self) -> (last: Option<Vec<T>>)
        requires
            old(self).wf(),
            old(self).state is Accumulating,
        ensures
            final(self).wf(),
            final(self).batch_size == old(self).batch_size,
            final(self).history@ == old(self).history@,
            final(self).buffer@ == Seq::<T>::empty(),
            old(self).buffer@.len() == 0 ==> (last is None && final(self).state is Done
                && final(self).batches@ == old(self).batches@),
            old(self).buffer@.len() > 0 ==> (last matches Some(partial)
                && partial@ == old(self).buffer@ && final(self).state is Draining
                && final(self).batches@ == old(self).batches@.push(partial@)),
    {
        if self.buffer.len() == 0 {
            self.state = BatcherState::Done;
            proof {
                assert(self.buffer@ =~= Seq::<T>::empty());
            }
            None
        } else {
            let mut partial: Vec<T> = Vec::new();
            core::mem::swap(&mut self.buffer, &mut partial);
            self.state = BatcherState::Draining;
            self.batches = Ghost(self.batches@.push(partial@));
            proof {
                broadcast use Seq::lemma_flatten_push;

                assert(self.batches@.flatten() + self.buffer@ =~= self.history@);
            }
            Some(partial)
        }
    }
}

/// A sequence of batches that are all full flattens to exactly
/// `count * size` records.
proof fn lemma_flatten_full_len<T>(bs: Seq<Seq<T>>, n: nat)
    requires
        forall|i: int| 0 <= i < bs.len() ==> (#[trigger] bs[i]).len() == n,
    ensures
        bs.flatten().len() == bs.len() * n,
    decreases bs.len(),
{
    if bs.len() == 0 {
        assert(bs.flatten().len() == 0);
    } else {
        assert(bs.flatten() == bs.first() + bs.drop_first().flatten());
        assert forall|i: int| 0 <= i < bs.drop_first().len() implies (#[trigger] bs.drop_first()[i]).len()
            == n by {
            assert(bs.drop_first()[i] == bs[i + 1]);
        }
        lemma_flatten_full_len(bs.drop_first(), n);
        assert(bs.flatten().len() == n + (bs.len() - 1) * n);
        assert(n + (bs.len() - 1) * n == bs.len() * n) by (nonlinear_arith);
    }
}

/// A run that accepted no records has handed out no batches: closing
/// an empty input completes the pipeline with zero dispatches.
pub proof fn lemma_empty_run_dispatches_nothing<T>(b: StreamBatcher<T>)
    requires
        b.wf(),
        b.history@.len() == 0,
    ensures
        b.batches@.len() == 0,
{
    if b.batches@.len() > 0 {
        b.batches@.lemma_flatten_length_ge_single_element_length(0);
        b.batches@.lemma_flatten_and_flatten_alt_are_equivalent();
        assert(b.batches@.flatten().len() >= b.batches@[0].len());
        assert(b.batches@.flatten() + b.buffer@ == b.history@);
        assert(b.history@.len() >= 1);
    }
}

/// The pipeline guarantee.  A completed run of `m` accepted records at
/// batch size `n` handed out exactly `ceil(m / n)` batches, and
/// concatenating them in order reproduces the accepted records
/// exactly: nothing lost, nothing duplicated, nothing reordered.
pub proof fn lemma_pipeline_complete<T>(b: StreamBatcher<T>)
    requires
        b.wf(),
        b.state is Done,
    ensures
        b.batches@.flatten() == b.history@,
        b.batches@.len() == ceil_div(b.history@.len(), b.batch_size as nat),
{
    let bs = b.batches@;
    let n = b.batch_size as nat;
    let k = bs.len();
    let m = b.history@.len();
    assert(bs.flatten() + b.buffer@ == b.history@);
    assert(bs.flatten() =~= bs.flatten() + b.buffer@);
    if k == 0 {
        assert(bs.flatten().len() == 0);
        assert(m == 0);
        lemma_fundamental_div_mod_converse((n - 1) as int, n as int, 0, (n - 1) as int);
        assert(ceil_div(0, n) == 0);
    } else {
        let prefix = bs.drop_last();
        let last = bs.last();
        assert forall|i: int| 0 <= i < prefix.len() implies (#[trigger] prefix[i]).len() == n by {
            assert(prefix[i] == bs[i]);
        }
        lemma_flatten_full_len(prefix, n);
        bs.lemma_flatten_and_flatten_alt_are_equivalent();
        prefix.lemma_flatten_and_flatten_alt_are_equivalent();
        assert(bs.flatten_alt() == prefix.flatten_alt() + last);
        let r = last.len();
        assert(1 <= r <= n);
        assert(m == (k - 1) * n + r);
        // m + n - 1 == k * n + (r - 1), with 0 <= r - 1 < n
        assert((m + n - 1) as int == k as int * n as int + (r - 1)) by (nonlinear_arith)
            requires
                m == (k - 1) * n + r,
                n >= 1,
                r >= 1,
        ;
        lemma_fundamental_div_mod_converse(
            (m + n - 1) as int,
            n as int,
            k as int,
            (r - 1) as int,
        );
        assert(ceil_div(m, n) == k);
    }
}

} // verus!

