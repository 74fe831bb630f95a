//! The pipeline strategy: one stage makes records and hands them over, the
//! other stores what has arrived and verifies it.

use vstd::prelude::*;
use rand::rngs::ThreadRng;
use crate::crypto::thread_rng;
use crate::cycle::{
    make_record, pipeline_selection, verify_round, BenchError, Counts, SignedRecord,
};
use crate::message::unique_message;

verus! {

/// The generating stage: how many records it has made.
pub struct PipelineGenerator {
    pub rng: ThreadRng,
    pub generated: usize,
}

impl PipelineGenerator {
    /// A stage that has made nothing yet.
    pub fn new() -> (r: PipelineGenerator)
        ensures
            r.generated == 0,
    {
        PipelineGenerator { rng: thread_rng(), generated: 0 }
    }

    /// Whether `produce` may be called again.
    pub fn has_room(&self) -> (r: bool)
        ensures
            r == (self.generated < usize::MAX),
    {
        self.generated < usize::MAX
    }

    /// How many records this stage has made.
    pub fn generated(&self) -> (r: usize)
        ensures
            r == self.generated,
    {
        self.generated
    }

    /// Makes the next record, signing the payload of the current count; the
    /// record verifies.
    pub fn produce(&mut self) -> (r: SignedRecord)
        requires
            old(self).generated < usize::MAX,
        ensures
            r.valid(),
            final(self).generated == old(self).generated + 1,
            r.message@ == unique_message(old(self).generated as u64),
    {
        let record = make_record(&mut self.rng, self.generated);
        self.generated = self.generated + 1;
        record
    }
}

/// The verifying stage: the records received so far, in arrival order, and
/// its tallies (it generates nothing itself).
pub struct PipelineVerifier {
    pub history: Vec<SignedRecord>,
    pub counts: Counts,
}

impl PipelineVerifier {
    /// The stage's invariant: no generations of its own, and the pair on
    /// every third single verification.
    pub open spec fn wf(&self) -> bool {
        &&& self.counts.generations == 0
        &&& self.counts.double_verifications == 2 * (self.counts.single_verifications / 3)
    }

    /// Every record received so far verifies.
    pub open spec fn all_valid(&self) -> bool {
        forall|i: int| 0 <= i < self.history@.len() ==> (#[trigger] self.history@[i]).valid()
    }

    /// The position the next step verifies, when anything has been received:
    /// verifications so far mod records received.
    pub open spec fn next_index(&self) -> nat {
        self.counts.single_verifications as nat % self.history@.len()
    }

    /// Whether one more verification fits in the tallies.
    pub open spec fn has_room_spec(&self) -> bool {
        self.counts.single_verifications < usize::MAX
    }

    /// A stage that has received nothing yet.
    pub fn new() -> (r: PipelineVerifier)
        ensures
            r.wf(),
            r.history@.len() == 0,
            r.counts.single_verifications == 0,
    {
        PipelineVerifier { history: Vec::new(), counts: Counts::zero() }
    }

    /// Whether `step` may be called again.
    pub fn has_room(&self) -> (r: bool)
        ensures
            r == self.has_room_spec(),
    {
        self.counts.single_verifications < usize::MAX
    }

    /// The tallies so far.
    pub fn counts(&self) -> (r: Counts)
        ensures
            r == self.counts,
    {
        self.counts
    }

    /// Stores a record that has arrived from the generating stage.
    pub fn receive(&mut self, record: SignedRecord)
        ensures
            final(self).history@ == old(self).history@.push(record),
            final(self).counts == old(self).counts,
            old(self).all_valid() && record.valid() ==> final(self).all_valid(),
    {
        self.history.push(record);
    }

    /// One iteration: with nothing received it does nothing and returns
    /// `None`; otherwise it verifies the record at `next_index`, twice more
    /// when the count after it is a multiple of three, and returns that
    /// position. It fails exactly when that record does not verify, so it
    /// succeeds whenever every record received verifies.
    pub fn step(&mut self) -> (r: Result<Option<usize>, BenchError>)
        requires
            old(self).wf(),
            old(self).has_room_spec(),
        ensures
            final(self).history == old(self).history,
            old(self).history@.len() == 0 ==> r == Ok::<Option<usize>, BenchError>(None)
                && final(self).counts == old(self).counts,
            old(self).history@.len() > 0 ==> (r is Ok <==> old(self).history@[old(
                self,
            ).next_index() as int].valid()),
            old(self).history@.len() > 0 && old(self).all_valid() ==> r is Ok,
            old(self).history@.len() > 0 && r is Ok ==> r == Ok::<Option<usize>, BenchError>(
                Some(old(self).next_index() as usize),
            ),
            r is Ok ==> final(self).wf(),
            r is Ok && old(self).history@.len() > 0 ==> final(self).counts.single_verifications
                == old(self).counts.single_verifications + 1,
            r is Ok && old(self).history@.len() > 0 ==> final(self).counts.double_verifications
                == old(self).counts.double_verifications + if (
            old(self).counts.single_verifications + 1) % 3 == 0 {
                2int
            } else {
                0int
            },
            r is Err ==> r == Err::<Option<usize>, BenchError>(BenchError::VerificationFailed)
                && final(self).counts == old(self).counts,
    {
        if self.history.len() == 0 {
            return Ok(None);
        }
        let s = self.counts.single_verifications;
        let selection = pipeline_selection(s, self.history.len());
        assert(self.counts.double_verifications <= usize::MAX - 2) by {
            assert(2 * ((s + 1) / 3) <= s + 1);
        }
        match verify_round(&self.history[selection.index], selection.double, &mut self.counts) {
            Ok(()) => {
                proof {
                    if (s + 1) % 3 == 0 {
                        assert(2 * ((s + 1) / 3) == 2 * (s / 3) + 2);
                    } else {
                        assert((s + 1) / 3 == s / 3);
                    }
                }
                Ok(Some(selection.index))
            },
            Err(e) => Err(e),
        }
    }
}

/// The verifying stage's paired count is always even: twice the number of
/// its single verifications that brought the count to a multiple of three.
pub proof fn lemma_verifier_double_even(verifier: PipelineVerifier)
    requires
        verifier.wf(),
    ensures
        verifier.counts.double_verifications % 2 == 0,
        verifier.counts.double_verifications == 2 * (verifier.counts.single_verifications / 3),
{
}

/// The verifying stage never gets ahead of the generating one: when
/// everything it has received came from `generator`, so that it holds no
/// more records than `generator` has made, the position its next step
/// verifies is that of a record already made, and with nothing received its
/// step verifies nothing.
pub proof fn lemma_pipeline_never_ahead(generator: PipelineGenerator, verifier: PipelineVerifier)
    requires
        verifier.history@.len() <= generator.generated,
    ensures
        verifier.history@.len() > 0 ==> verifier.next_index() < generator.generated,
        generator.generated == 0 ==> verifier.history@.len() == 0,
{
}

} // verus!
