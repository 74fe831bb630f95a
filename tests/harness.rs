use rayon::prelude::{IntoParallelIterator, ParallelIterator};
use secp_bench::counters::SharedCounters;
use rand::thread_rng;
use secp_bench::cycle::{
    make_record, pipeline_selection, pool_selection, serial_selection, verify_round, BenchError,
    Counts,
};
use secp_bench::message::generate_unique_message;
use secp_bench::pipeline::{PipelineGenerator, PipelineVerifier};
use secp_bench::pool::{PoolWorker, WORKER_COUNTER_STRIDE};
use secp_bench::serial::SerialRunner;
use std::collections::HashSet;

#[test]
fn message_bytes_for_258() {
    let m = generate_unique_message(258);
    assert_eq!(&m[0..8], &[2, 1, 0, 0, 0, 0, 0, 0]);
    assert_eq!(&m[8..16], &[2, 129, 64, 32, 16, 8, 4, 2]);
    assert_eq!(&m[16..24], &m[8..16]);
    assert_eq!(&m[24..32], &m[8..16]);
}

#[test]
fn message_for_zero_is_all_zero() {
    assert_eq!(generate_unique_message(0), [0u8; 32]);
}

#[test]
fn message_leads_with_little_endian_counter() {
    let c: usize = 0x0102_0304_0506_0708;
    let m = generate_unique_message(c);
    assert_eq!(&m[0..8], &(c as u64).to_le_bytes());
    let big = generate_unique_message(usize::MAX);
    assert_eq!(big, [0xffu8; 32]);
}

#[test]
fn messages_distinct_over_a_range() {
    let mut seen = HashSet::new();
    for c in 0..5000usize {
        assert!(seen.insert(generate_unique_message(c)));
    }
}

#[test]
fn messages_distinct_across_workers() {
    let mut seen = HashSet::new();
    for w in 0..16usize {
        for i in [0usize, 1, 2, 999_999] {
            assert!(seen.insert(generate_unique_message(w * WORKER_COUNTER_STRIDE + i)));
        }
    }
}

#[test]
fn selection_rules() {
    assert_eq!(serial_selection(6, 4).index, 2);
    assert!(serial_selection(6, 4).double);
    assert!(!serial_selection(7, 7).double);
    assert_eq!(serial_selection(7, 7).index, 0);
    assert_eq!(pipeline_selection(2, 5).index, 2);
    assert!(pipeline_selection(2, 5).double);
    assert!(!pipeline_selection(3, 5).double);
    assert_eq!(pipeline_selection(7, 5).index, 2);
    assert_eq!(pool_selection(7).index, 6);
    assert!(!pool_selection(7).double);
    assert!(pool_selection(9).double);
}

#[test]
fn counts_start_at_zero() {
    let c = Counts::zero();
    assert_eq!((c.generations, c.single_verifications, c.double_verifications), (0, 0, 0));
}

#[test]
fn fresh_record_verifies() {
    let mut rng = thread_rng();
    let record = make_record(&mut rng, 42);
    assert_eq!(record.message, generate_unique_message(42));
    let mut counts = Counts::zero();
    assert_eq!(verify_round(&record, true, &mut counts), Ok(()));
    assert_eq!(counts.single_verifications, 1);
    assert_eq!(counts.double_verifications, 2);
    assert_eq!(verify_round(&record, false, &mut counts), Ok(()));
    assert_eq!((counts.single_verifications, counts.double_verifications), (2, 2));
}

#[test]
fn fresh_keypairs_differ() {
    let mut rng = thread_rng();
    let a = make_record(&mut rng, 1);
    let b = make_record(&mut rng, 1);
    assert_eq!(a.message, b.message);
    assert_ne!(a.public_key, b.public_key);
    assert_ne!(a.signature, b.signature);
}

#[test]
fn tampered_record_fails_verification() {
    let mut rng = thread_rng();
    let mut record = make_record(&mut rng, 7);
    record.message[0] ^= 1;
    let mut counts = Counts::zero();
    assert_eq!(verify_round(&record, true, &mut counts), Err(BenchError::VerificationFailed));
    assert_eq!(counts, Counts::zero());
}

#[test]
fn serial_counts_after_ten_steps() {
    let mut runner = SerialRunner::new();
    for _ in 0..10 {
        assert!(runner.has_room());
        runner.step().unwrap();
    }
    let c = runner.counts();
    assert_eq!(c.generations, 10);
    assert_eq!(c.single_verifications, 10);
    assert_eq!(c.double_verifications, 2 * (10 / 3));
    for (i, record) in runner.history.iter().enumerate() {
        assert_eq!(record.message, generate_unique_message(i));
    }
}

#[test]
fn serial_double_count_is_even() {
    let mut runner = SerialRunner::new();
    for g in 1..=7usize {
        runner.step().unwrap();
        let c = runner.counts();
        assert_eq!(c.double_verifications % 2, 0);
        assert_eq!(c.double_verifications, 2 * (g / 3));
    }
}

#[test]
fn pipeline_verifier_idle_without_records() {
    let mut verifier = PipelineVerifier::new();
    assert_eq!(verifier.step(), Ok(None));
    assert_eq!(verifier.step(), Ok(None));
    assert_eq!(verifier.counts(), Counts::zero());
}

#[test]
fn pipeline_rotates_through_received_records() {
    let mut generator = PipelineGenerator::new();
    let mut verifier = PipelineVerifier::new();
    for _ in 0..3 {
        verifier.receive(generator.produce());
    }
    assert_eq!(generator.generated(), 3);
    let mut picked = Vec::new();
    for _ in 0..5 {
        picked.push(verifier.step().unwrap().unwrap());
    }
    assert_eq!(picked, vec![0, 1, 2, 0, 1]);
    let c = verifier.counts();
    assert_eq!((c.generations, c.single_verifications, c.double_verifications), (0, 5, 2));
    for (i, record) in verifier.history.iter().enumerate() {
        assert_eq!(record.message, generate_unique_message(i));
        assert!(i < generator.generated());
    }
}

#[test]
fn pool_worker_counts_and_offsets() {
    let shared = SharedCounters::new();
    let mut worker = PoolWorker::new(3);
    assert_eq!(worker.offset, 3 * WORKER_COUNTER_STRIDE);
    for _ in 0..6 {
        assert!(worker.has_room());
        worker.step(&shared).unwrap();
    }
    let c = worker.counts();
    assert_eq!((c.generations, c.single_verifications, c.double_verifications), (6, 6, 4));
    assert_eq!(shared.snapshot(), c);
    for (i, record) in worker.history.iter().enumerate() {
        assert_eq!(record.message, generate_unique_message(3 * WORKER_COUNTER_STRIDE + i));
    }
}

#[test]
fn pool_shared_counters_equal_sum_of_workers() {
    let shared = SharedCounters::new();
    let workers: usize = 16;
    let private: Vec<Counts> = (0..workers)
        .into_par_iter()
        .map(|w| {
            let mut worker = PoolWorker::new(w);
            for _ in 0..(5 + w) {
                worker.step(&shared).unwrap();
            }
            worker.counts()
        })
        .collect();
    let total = shared.snapshot();
    assert_eq!(total.generations, private.iter().map(|c| c.generations).sum::<usize>());
    assert_eq!(
        total.single_verifications,
        private.iter().map(|c| c.single_verifications).sum::<usize>()
    );
    assert_eq!(
        total.double_verifications,
        private.iter().map(|c| c.double_verifications).sum::<usize>()
    );
    assert_eq!(total.double_verifications % 2, 0);
}

#[test]
fn serial_step_verifies_rotating_position() {
    let mut runner = SerialRunner::new();
    for _ in 0..5 {
        // The counter equals the number of records once the new one is
        // stored, so the rotating position is always the first record.
        assert_eq!(runner.step(), Ok(0));
    }
}

#[test]
fn pool_step_verifies_newest_record() {
    let shared = SharedCounters::new();
    let mut worker = PoolWorker::new(1);
    for i in 0..5usize {
        assert_eq!(worker.step(&shared), Ok(i));
        assert_eq!(
            worker.history[i].message,
            generate_unique_message(WORKER_COUNTER_STRIDE + i)
        );
    }
}

#[test]
fn pipeline_rejects_tampered_record() {
    let mut generator = PipelineGenerator::new();
    let mut verifier = PipelineVerifier::new();
    verifier.receive(generator.produce());
    let mut bad = generator.produce();
    bad.message[5] ^= 0x80;
    verifier.receive(bad);
    assert_eq!(verifier.step(), Ok(Some(0)));
    let before = verifier.counts();
    assert_eq!(verifier.step(), Err(BenchError::VerificationFailed));
    assert_eq!(verifier.counts(), before);
}
