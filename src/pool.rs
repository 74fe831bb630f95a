//! The work-stealing strategy: every worker runs the whole cycle on its own
//! history and bumps one set of shared counters.

use vstd::prelude::*;
use rand::rngs::ThreadRng;
use crate::counters::SharedCounters;
use crate::crypto::thread_rng;
use crate::cycle::{make_record, pool_selection, verify_round, BenchError, Counts, SignedRecord};
use crate::message::{lemma_unique_message_injective, unique_message};

verus! {

/// Width of each worker's range of message counters: worker `w` signs the
/// payloads of `w * WORKER_COUNTER_STRIDE`, `w * WORKER_COUNTER_STRIDE + 1`, ...
pub const WORKER_COUNTER_STRIDE: usize = 1_000_000;

/// The first message counter of worker `worker_index`.
pub open spec fn worker_offset(worker_index: int) -> int {
    worker_index * WORKER_COUNTER_STRIDE
}

/// One worker's private state: where its counters start, its own records,
/// and its own tallies.
pub struct PoolWorker {
    pub rng: ThreadRng,
    pub offset: usize,
    pub history: Vec<SignedRecord>,
    pub counts: Counts,
}

impl PoolWorker {
    /// The worker's invariant: one record per generation, record `i` signs
    /// the payload of counter `offset + i` and verifies, one single verification per
    /// generation, and the pair whenever the history length reaches a
    /// multiple of three.
    pub open spec fn wf(&self) -> bool {
        &&& self.history@.len() == self.counts.generations
        &&& self.counts.single_verifications == self.counts.generations
        &&& self.counts.double_verifications == 2 * (self.counts.generations / 3)
        &&& forall|i: int|
            0 <= i < self.history@.len() ==> (#[trigger] self.history@[i]).message@
                == unique_message((self.offset + i) as u64)
        &&& forall|i: int| 0 <= i < self.history@.len() ==> (#[trigger] self.history@[i]).valid()
    }

    /// Whether one more iteration fits in the tallies and counters.
    pub open spec fn has_room_spec(&self) -> bool {
        self.offset + self.counts.generations < usize::MAX
    }

    /// Worker number `worker_index`, which has done nothing yet.
    pub fn new(worker_index: usize) -> (r: PoolWorker)
        requires
            worker_offset(worker_index as int) <= usize::MAX,
        ensures
            r.wf(),
            r.offset == worker_offset(worker_index as int),
            r.counts.generations == 0,
    {
        PoolWorker {
            rng: thread_rng(),
            offset: worker_index * WORKER_COUNTER_STRIDE,
            history: Vec::new(),
            counts: Counts::zero(),
        }
    }

    /// Whether `step` may be called again.
    pub fn has_room(&self) -> (r: bool)
        ensures
            r == self.has_room_spec(),
    {
        self.counts.generations < usize::MAX - self.offset
    }

    /// This worker's own tallies.
    pub fn counts(&self) -> (r: Counts)
        ensures
            r == self.counts,
    {
        self.counts
    }

    /// One iteration: make and store a record for counter `offset + count`,
    /// then verify that newest record, twice more when the history length is
    /// a multiple of three. Each tally that moves here is added to `shared`
    /// too. Every stored record is valid, so the step succeeds; it returns
    /// the position it verified, always that of the record just made.
    pub fn step(&mut self, shared: &SharedCounters) -> (r: Result<usize, BenchError>)
        requires
            old(self).wf(),
            old(self).has_room_spec(),
        ensures
            final(self).wf(),
            final(self).offset == old(self).offset,
            final(self).counts.generations == old(self).counts.generations + 1,
            final(self).history@.len() == old(self).history@.len() + 1,
            final(self).history@.subrange(0, old(self).history@.len() as int)
                == old(self).history@,
            final(self).history@.last().message@ == unique_message(
                (old(self).offset + old(self).counts.generations) as u64,
            ),
            r == Ok::<usize, BenchError>(old(self).history@.len() as usize),
            final(self).counts.single_verifications == old(self).counts.single_verifications + 1,
            final(self).counts.double_verifications == old(self).counts.double_verifications
                + if (old(self).counts.generations + 1) % 3 == 0 {
                2int
            } else {
                0int
            },
    {
        let ghost old_history = self.history@;
        let count = self.counts.generations;
        let record = make_record(&mut self.rng, self.offset + count);
        self.history.push(record);
        self.counts.generations = count + 1;
        shared.add_generations(1);
        let selection = pool_selection(self.history.len());
        assert(self.counts.double_verifications <= usize::MAX - 2) by {
            assert(2 * ((count + 1) / 3) <= count + 1);
        }
        let r = verify_round(&self.history[selection.index], selection.double, &mut self.counts);
        if r.is_ok() {
            shared.add_single_verifications(1);
            if selection.double {
                shared.add_double_verifications(2);
            }
        }
        proof {
            assert(self.history@.subrange(0, old_history.len() as int) =~= old_history);
            {
                let g = count + 1;
                if g % 3 == 0 {
                    assert(2 * (g / 3) == 2 * (count / 3) + 2);
                } else {
                    assert(g / 3 == count / 3);
                }
                assert forall|i: int| 0 <= i < self.history@.len() implies (
                #[trigger] self.history@[i]).message@ == unique_message(
                    (self.offset + i) as u64,
                ) by {
                    if i < old_history.len() {
                        assert(self.history@[i] == old_history[i]);
                    }
                }
                assert forall|i: int| 0 <= i < self.history@.len() implies (
                #[trigger] self.history@[i]).valid() by {
                    if i < old_history.len() {
                        assert(self.history@[i] == old_history[i]);
                    }
                }
            }
        }
        match r {
            Ok(()) => Ok(selection.index),
            Err(e) => Err(e),
        }
    }
}

/// A worker's paired verifications always come in pairs: its count of them
/// is even, and it is twice the number of its generations that were a
/// multiple of three.
pub proof fn lemma_worker_double_even(worker: PoolWorker)
    requires
        worker.wf(),
    ensures
        worker.counts.double_verifications % 2 == 0,
        worker.counts.double_verifications == 2 * (worker.counts.generations / 3),
        worker.counts.single_verifications == worker.counts.generations,
{
}

/// Two workers, or one worker at two different iterations, never sign the
/// same payload while each stays within its own range of counters.
pub proof fn lemma_worker_messages_distinct(w1: nat, i1: nat, w2: nat, i2: nat)
    requires
        w1 != w2 || i1 != i2,
        i1 < WORKER_COUNTER_STRIDE,
        i2 < WORKER_COUNTER_STRIDE,
        worker_offset(w1 as int) + i1 <= u64::MAX,
        worker_offset(w2 as int) + i2 <= u64::MAX,
    ensures
        unique_message((worker_offset(w1 as int) + i1) as u64) != unique_message(
            (worker_offset(w2 as int) + i2) as u64,
        ),
{
    let c1 = worker_offset(w1 as int) + i1;
    let c2 = worker_offset(w2 as int) + i2;
    if w1 == w2 {
        assert(c1 != c2);
    } else if w1 < w2 {
        assert(worker_offset(w1 as int) + WORKER_COUNTER_STRIDE <= worker_offset(w2 as int))
            by (nonlinear_arith)
            requires
                w1 < w2,
        ;
    } else {
        assert(worker_offset(w2 as int) + WORKER_COUNTER_STRIDE <= worker_offset(w1 as int))
            by (nonlinear_arith)
            requires
                w2 < w1,
        ;
    }
    lemma_unique_message_injective(c1 as u64, c2 as u64);
}

} // verus!
