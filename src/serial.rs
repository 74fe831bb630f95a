//! The serial strategy: generate, sign, store and verify on one thread.

use vstd::prelude::*;
use rand::rngs::ThreadRng;
use crate::crypto::thread_rng;
use crate::cycle::{
    make_record, serial_selection, verify_round, BenchError, Counts, SignedRecord,
};
use crate::message::{lemma_unique_message_injective, unique_message};

verus! {

/// State of one serial run: every record made so far, in order, and the
/// tallies.
pub struct SerialRunner {
    pub rng: ThreadRng,
    pub history: Vec<SignedRecord>,
    pub counts: Counts,
}

impl SerialRunner {
    /// The runner's invariant: one record per generation, the record made
    /// at generation `i` signs the payload of counter `i` and verifies, one
    /// single verification per generation, and the pair on every third one.
    pub open spec fn wf(&self) -> bool {
        &&& self.history@.len() == self.counts.generations
        &&& self.counts.single_verifications == self.counts.generations
        &&& self.counts.double_verifications == 2 * (self.counts.generations / 3)
        &&& forall|i: int|
            0 <= i < self.history@.len() ==> (#[trigger] self.history@[i]).message@
                == unique_message(i as u64)
        &&& forall|i: int| 0 <= i < self.history@.len() ==> (#[trigger] self.history@[i]).valid()
    }

    /// Whether one more iteration fits in the tallies.
    pub open spec fn has_room_spec(&self) -> bool {
        self.counts.generations < usize::MAX
    }

    /// A runner that has done nothing yet.
    pub fn new() -> (r: SerialRunner)
        ensures
            r.wf(),
            r.counts.generations == 0,
    {
        SerialRunner { rng: thread_rng(), history: Vec::new(), counts: Counts::zero() }
    }

    /// Whether `step` may be called again.
    pub fn has_room(&self) -> (r: bool)
        ensures
            r == self.has_room_spec(),
    {
        self.counts.generations < usize::MAX
    }

    /// The tallies so far.
    pub fn counts(&self) -> (r: Counts)
        ensures
            r == self.counts,
    {
        self.counts
    }

    /// One iteration: make and store a record for the current generation
    /// counter, bump it, then verify the record at (counter mod records
    /// stored), twice more when the counter is a multiple of three. Every
    /// stored record is valid, so the step succeeds; it returns the position
    /// it verified.
    pub fn step(&mut self) -> (r: Result<usize, BenchError>)
        requires
            old(self).wf(),
            old(self).has_room_spec(),
        ensures
            final(self).wf(),
            final(self).counts.generations == old(self).counts.generations + 1,
            final(self).history@.len() == old(self).history@.len() + 1,
            final(self).history@.subrange(0, old(self).history@.len() as int)
                == old(self).history@,
            r == Ok::<usize, BenchError>(
                (final(self).counts.generations as nat % final(self).history@.len()) as usize,
            ),
            final(self).counts.single_verifications == old(self).counts.single_verifications + 1,
            final(self).counts.double_verifications == old(self).counts.double_verifications
                + if (old(self).counts.generations + 1) % 3 == 0 {
                2int
            } else {
                0int
            },
    {
        let ghost old_history = self.history@;
        let counter = self.counts.generations;
        let record = make_record(&mut self.rng, counter);
        self.history.push(record);
        self.counts.generations = counter + 1;
        let selection = serial_selection(self.counts.generations, self.history.len());
        assert(self.counts.double_verifications <= usize::MAX - 2) by {
            assert(2 * ((counter + 1) / 3) <= counter + 1);
        }
        let r = verify_round(&self.history[selection.index], selection.double, &mut self.counts);
        proof {
            assert(self.history@.subrange(0, old_history.len() as int) =~= old_history);
            {
                let g = counter + 1;
                if g % 3 == 0 {
                    assert(2 * (g / 3) == 2 * (counter / 3) + 2);
                } else {
                    assert(g / 3 == counter / 3);
                }
                assert forall|i: int| 0 <= i < self.history@.len() implies (
                #[trigger] self.history@[i]).message@ == unique_message(i as u64) by {
                    if i < old_history.len() {
                        assert(self.history@[i] == old_history[i]);
                    }
                }
                assert forall|i: int| 0 <= i < self.history@.len() implies (
                #[trigger] self.history@[i]).valid() by {
                    if i < old_history.len() {
                        assert(self.history@[i] == old_history[i]);
                    }
                }
            }
        }
        match r {
            Ok(()) => Ok(selection.index),
            Err(e) => Err(e),
        }
    }
}

/// After `g` generations of a serial run the pair of extra verifications
/// has fired on exactly `g / 3` of them: the paired count is `2 * (g / 3)`,
/// hence even, and there is one single verification per generation.
pub proof fn lemma_serial_counts(runner: SerialRunner)
    requires
        runner.wf(),
    ensures
        runner.counts.double_verifications == 2 * (runner.counts.generations / 3),
        runner.counts.double_verifications % 2 == 0,
        runner.counts.single_verifications == runner.counts.generations,
{
}

/// Distinct records of a serial run sign byte-distinct payloads.
pub proof fn lemma_serial_messages_distinct(runner: SerialRunner, i: int, j: int)
    requires
        runner.wf(),
        0 <= i < j < runner.history@.len(),
    ensures
        runner.history@[i].message@ != runner.history@[j].message@,
{
    lemma_unique_message_injective(i as u64, j as u64);
}

} // verus!
