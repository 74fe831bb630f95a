//! The pieces every strategy shares: the signed record, the three tallies,
//! which stored record to verify next, and one guarded round of verification.

use vstd::prelude::*;
use rand::rngs::ThreadRng;
use secp256k1::ecdsa::Signature;
use secp256k1::PublicKey;
use crate::crypto::{ecdsa_accepts, generate_keypair, sign_ecdsa, verify_ecdsa};
use crate::message::{generate_unique_message, unique_message};

verus! {

/// One generation's output: the public key, its signature, and the payload
/// that was signed. Never changed once made.
pub struct SignedRecord {
    pub public_key: PublicKey,
    pub signature: Signature,
    pub message: [u8; 32],
}

impl SignedRecord {
    /// The signature is accepted for the message under the public key.
    pub open spec fn valid(&self) -> bool {
        ecdsa_accepts(self.message@, self.signature, self.public_key)
    }
}

/// Why a run stopped early.
#[derive(Clone, Copy, Debug, PartialEq, Eq, Structural)]
pub enum BenchError {
    /// A freshly signed, untouched record did not verify: the signature
    /// scheme itself is broken.
    VerificationFailed,
}

/// The three tallies of a scenario: key pairs generated, single
/// verifications, and the verifications added in pairs.
#[derive(Clone, Copy, Debug, PartialEq, Eq, Structural)]
pub struct Counts {
    pub generations: usize,
    pub single_verifications: usize,
    pub double_verifications: usize,
}

impl Counts {
    /// All three tallies at zero.
    pub fn zero() -> (r: Counts)
        ensures
            r.generations == 0,
            r.single_verifications == 0,
            r.double_verifications == 0,
    {
        Counts { generations: 0, single_verifications: 0, double_verifications: 0 }
    }
}

/// Which stored record to verify, and whether the pair of extra
/// verifications follows.
#[derive(Clone, Copy, Debug, PartialEq, Eq, Structural)]
pub struct Selection {
    pub index: usize,
    pub double: bool,
}

/// The serial rule, applied after the generation counter has been bumped to
/// `generations`: rotate through the history by that counter, and add the
/// pair on every third generation.
pub fn serial_selection(generations: usize, history_len: usize) -> (r: Selection)
    requires
        history_len > 0,
    ensures
        r.index == generations % history_len,
        r.double == (generations % 3 == 0),
        r.index < history_len,
{
    Selection { index: generations % history_len, double: generations % 3 == 0 }
}

/// The pipeline rule: rotate through the history by the number of
/// verifications made before this one, and add the pair whenever the count
/// after it is a multiple of three.
pub fn pipeline_selection(verifications: usize, history_len: usize) -> (r: Selection)
    requires
        history_len > 0,
        verifications < usize::MAX,
    ensures
        r.index == verifications % history_len,
        r.double == ((verifications + 1) % 3 == 0),
        r.index < history_len,
{
    Selection { index: verifications % history_len, double: (verifications + 1) % 3 == 0 }
}

/// The work-stealing rule: always the newest record, with the pair whenever
/// the history length is a multiple of three.
pub fn pool_selection(history_len: usize) -> (r: Selection)
    requires
        history_len > 0,
    ensures
        r.index == history_len - 1,
        r.double == (history_len % 3 == 0),
{
    Selection { index: history_len - 1, double: history_len % 3 == 0 }
}

/// Generates a key pair and signs the payload derived from `counter`; the
/// record it returns verifies.
pub fn make_record(rng: &mut ThreadRng, counter: usize) -> (r: SignedRecord)
    ensures
        r.message@ == unique_message(counter as u64),
        r.valid(),
{
    let (secret_key, public_key) = generate_keypair(rng);
    let message = generate_unique_message(counter);
    let signature = sign_ecdsa(&message, &secret_key);
    SignedRecord { public_key, signature, message }
}

/// `counts` after a successful round: one more single verification, and two
/// more paired ones when `double` is set.
pub open spec fn after_round(counts: Counts, double: bool) -> Counts {
    Counts {
        single_verifications: (counts.single_verifications + 1) as usize,
        double_verifications: if double {
            (counts.double_verifications + 2) as usize
        } else {
            counts.double_verifications
        },
        ..counts
    }
}

/// Whether a round can be tallied without overflowing `counts`.
pub open spec fn round_fits(counts: Counts) -> bool {
    counts.single_verifications < usize::MAX && counts.double_verifications <= usize::MAX - 2
}

/// Verifies `record` once, and twice more when `double` is set. The round
/// succeeds exactly when the record is valid, and only then do the tallies
/// move; otherwise it ends with `VerificationFailed` and leaves them as they
/// were.
pub fn verify_round(record: &SignedRecord, double: bool, counts: &mut Counts) -> (r: Result<
    (),
    BenchError,
>)
    requires
        round_fits(*old(counts)),
    ensures
        r is Ok <==> record.valid(),
        r is Ok ==> *final(counts) == after_round(*old(counts), double),
        r is Err ==> *final(counts) == *old(counts) && r == Err::<(), BenchError>(
            BenchError::VerificationFailed,
        ),
{
    if verify_ecdsa(&record.message, &record.signature, &record.public_key).is_err() {
        return Err(BenchError::VerificationFailed);
    }
    if double {
        if verify_ecdsa(&record.message, &record.signature, &record.public_key).is_err() {
            return Err(BenchError::VerificationFailed);
        }
        if verify_ecdsa(&record.message, &record.signature, &record.public_key).is_err() {
            return Err(BenchError::VerificationFailed);
        }
        counts.double_verifications = counts.double_verifications + 2;
    }
    counts.single_verifications = counts.single_verifications + 1;
    Ok(())
}

} // verus!
