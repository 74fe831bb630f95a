//! Deterministic 32-byte payloads derived from a counter.

use vstd::prelude::*;

verus! {

/// Length in bytes of every signed payload.
pub const MESSAGE_LEN: usize = 32;

/// Byte `i` of the payload for `counter`: the first eight bytes hold the
/// counter in little-endian order, the rest are a cheap mix of its low bits.
pub open spec fn message_byte(counter: u64, i: int) -> u8 {
    let shift: u64 = if i < 8 {
        (8 * i) as u64
    } else {
        (i % 8) as u64
    };
    #[verifier::truncate]
    ((counter >> shift) as u8)
}

/// The whole payload that `generate_unique_message` derives from `counter`.
pub open spec fn unique_message(counter: u64) -> Seq<u8> {
    Seq::new(32, |i: int| message_byte(counter, i))
}

/// Eight little-endian bytes determine a 64-bit integer.
proof fn lemma_le_bytes_determine(a: u64, b: u64)
    by (bit_vector)
    requires
        #[verifier::truncate] ((a >> 0u64) as u8) == #[verifier::truncate] ((b >> 0u64) as u8),
        #[verifier::truncate] ((a >> 8u64) as u8) == #[verifier::truncate] ((b >> 8u64) as u8),
        #[verifier::truncate] ((a >> 16u64) as u8) == #[verifier::truncate] ((b >> 16u64) as u8),
        #[verifier::truncate] ((a >> 24u64) as u8) == #[verifier::truncate] ((b >> 24u64) as u8),
        #[verifier::truncate] ((a >> 32u64) as u8) == #[verifier::truncate] ((b >> 32u64) as u8),
        #[verifier::truncate] ((a >> 40u64) as u8) == #[verifier::truncate] ((b >> 40u64) as u8),
        #[verifier::truncate] ((a >> 48u64) as u8) == #[verifier::truncate] ((b >> 48u64) as u8),
        #[verifier::truncate] ((a >> 56u64) as u8) == #[verifier::truncate] ((b >> 56u64) as u8),
    ensures
        a == b,
{
}

/// Distinct counters give byte-distinct payloads, so no two signatures made
/// from different counters ever cover the same message.
pub proof fn lemma_unique_message_injective(c1: u64, c2: u64)
    requires
        c1 != c2,
    ensures
        unique_message(c1) != unique_message(c2),
{
    if unique_message(c1) == unique_message(c2) {
        assert(unique_message(c1)[0] == unique_message(c2)[0]);
        assert(unique_message(c1)[1] == unique_message(c2)[1]);
        assert(unique_message(c1)[2] == unique_message(c2)[2]);
        assert(unique_message(c1)[3] == unique_message(c2)[3]);
        assert(unique_message(c1)[4] == unique_message(c2)[4]);
        assert(unique_message(c1)[5] == unique_message(c2)[5]);
        assert(unique_message(c1)[6] == unique_message(c2)[6]);
        assert(unique_message(c1)[7] == unique_message(c2)[7]);
        lemma_le_bytes_determine(c1, c2);
    }
}

/// Builds the payload for `counter`.
pub fn generate_unique_message(counter: usize) -> (r: [u8; 32])
    ensures
        r@ == unique_message(counter as u64),
{
    let c: u64 = counter as u64;
    let mut bytes: [u8; 32] = [0u8; 32];
    let mut i: usize = 0;
    while i < MESSAGE_LEN
        invariant
            i <= 32,
            c == counter as u64,
            bytes@.len() == 32,
            forall|k: int| 0 <= k < i ==> bytes@[k] == message_byte(c, k),
        decreases 32 - i,
    {
        let shift: u64 = if i < 8 {
            8 * i as u64
        } else {
            (i % 8) as u64
        };
        let b: u8 = (c >> shift) as u8;
        bytes[i] = b;
        i = i + 1;
    }
    assert(bytes@ =~= unique_message(c));
    bytes
}

} // verus!
