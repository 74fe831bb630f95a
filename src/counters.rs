//! Tallies shared by concurrently running workers.

use vstd::prelude::*;
use std::sync::atomic::{AtomicUsize, Ordering};
use crate::cycle::Counts;

verus! {

/// Three independent counters that any number of threads may bump at once;
/// each bump is a single atomic add, so none is lost. What the counters
/// hold is not tracked by the proofs: other threads may change them at any
/// moment.
pub struct SharedCounters {
    generations: AtomicUsize,
    single_verifications: AtomicUsize,
    double_verifications: AtomicUsize,
}

impl SharedCounters {
    /// Counters that start at zero.
    pub fn new() -> SharedCounters {
        SharedCounters {
            generations: AtomicUsize::new(0),
            single_verifications: AtomicUsize::new(0),
            double_verifications: AtomicUsize::new(0),
        }
    }

    /// Adds `n` to the generation counter.
    pub fn add_generations(&self, n: usize) {
        self.generations.fetch_add(n, Ordering::Relaxed);
    }

    /// Adds `n` to the single-verification counter.
    pub fn add_single_verifications(&self, n: usize) {
        self.single_verifications.fetch_add(n, Ordering::Relaxed);
    }

    /// Adds `n` to the paired-verification counter.
    pub fn add_double_verifications(&self, n: usize) {
        self.double_verifications.fetch_add(n, Ordering::Relaxed);
    }

    /// The current value of each counter.
    pub fn snapshot(&self) -> Counts {
        Counts {
            generations: self.generations.load(Ordering::Relaxed),
            single_verifications: self.single_verifications.load(Ordering::Relaxed),
            double_verifications: self.double_verifications.load(Ordering::Relaxed),
        }
    }
}

} // verus!
