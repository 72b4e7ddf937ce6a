//! A search worker's per-iteration logic: generate a candidate, test it
//! against the patterns in order, and decide what to report.

use vstd::prelude::*;

use crate::keypair::{comparable_string_of, generate_keypair, KeyPair};
use crate::pattern::{pattern_matches, Pattern, PatternView};

verus! {

/// How many attempts a worker accumulates before flushing a progress-only
/// report, amortizing channel traffic against per-attempt overhead.
pub const REPORT_BATCH: u64 = 10000;

/// What a worker does after one attempt: keep searching silently, flush a
/// progress-only report carrying the given attempt count, or report a hit
/// carrying the attempts since the last report.
pub enum WorkerAction {
    Continue,
    FlushProgress(u64),
    ReportHit(u64),
}

/// A worker's private attempt counter: the attempts made since its last
/// report.
pub struct WorkerCounter {
    local_attempts: u64,
}

#[verifier::type_invariant]
spec fn counter_inv(c: &WorkerCounter) -> bool {
    c.local_attempts < REPORT_BATCH
}

impl WorkerCounter {
    /// The attempts accumulated since the last report; always below the
    /// report batch size.
    pub closed spec fn pending(&self) -> u64 {
        self.local_attempts
    }

    /// A fresh counter with no pending attempts.
    pub fn new() -> (r: WorkerCounter)
        ensures
            r.pending() == 0,
    {
        WorkerCounter { local_attempts: 0 }
    }

    /// Records one attempt and decides what to report. A hit is always
    /// reported at once, carrying every pending attempt; otherwise a
    /// progress report is flushed exactly when a full batch has
    /// accumulated, and the counter resets on every report.
    pub fn note_attempt(&mut self, found: bool) -> (r: WorkerAction)
        ensures
            found ==> r == WorkerAction::ReportHit((old(self).pending() + 1) as u64)
                && final(self).pending() == 0,
            !found && old(self).pending() + 1 == REPORT_BATCH ==> r == WorkerAction::FlushProgress(
                REPORT_BATCH,
            ) && final(self).pending() == 0,
            !found && old(self).pending() + 1 < REPORT_BATCH ==> r == WorkerAction::Continue
                && final(self).pending() == old(self).pending() + 1,
    {
        proof {
            use_type_invariant(&*self);
        }
        let attempts = self.local_attempts + 1;
        if found {
            self.local_attempts = 0;
            WorkerAction::ReportHit(attempts)
        } else if attempts == REPORT_BATCH {
            self.local_attempts = 0;
            WorkerAction::FlushProgress(REPORT_BATCH)
        } else {
            self.local_attempts = attempts;
            WorkerAction::Continue
        }
    }
}

/// Generates one fresh key pair and tests it against every pattern in
/// order. On a match, yields the key pair and the first pattern it
/// satisfies; earlier patterns are guaranteed not to match it. A list that
/// holds an empty suffix matches every candidate, so there success is owed,
/// whatever key was drawn.
pub fn generate_and_check_key(patterns: &Vec<Pattern>) -> (r: Option<(KeyPair, Pattern)>)
    ensures
        r matches Some(hit) ==> exists|i: int|
            0 <= i < patterns@.len() && hit.1@ == patterns@[i]@ && pattern_matches(
                hit.1@,
                comparable_string_of(hit.0@.public),
            ) && (forall|j: int|
                0 <= j < i ==> !pattern_matches(
                    patterns@[j]@,
                    comparable_string_of(hit.0@.public),
                )),
        (exists|i: int|
            0 <= i < patterns@.len() && patterns@[i]@ == PatternView::Suffix(
                Seq::<char>::empty(),
            )) ==> r is Some,
{
    let keypair = generate_keypair();
    let base64_part = keypair.public_key_string_base64_part();
    let n = patterns.len();
    let mut i: usize = 0;
    while i < n
        invariant
            0 <= i <= n == patterns@.len(),
            base64_part@ == comparable_string_of(keypair@.public),
            forall|j: int|
                0 <= j < i ==> !pattern_matches(
                    patterns@[j]@,
                    comparable_string_of(keypair@.public),
                ),
        decreases n - i,
    {
        if patterns[i].matches_string(base64_part.as_str()) {
            let pattern = patterns[i].clone();
            return Some((keypair, pattern));
        }
        i = i + 1;
    }
    proof {
        let c = comparable_string_of(keypair@.public);
        assert(c.subrange(c.len() as int, c.len() as int) =~= Seq::<char>::empty());
        assert forall|j: int| 0 <= j < patterns@.len() implies patterns@[j]@
            != PatternView::Suffix(Seq::<char>::empty()) by {
            if patterns@[j]@ == PatternView::Suffix(Seq::<char>::empty()) {
                assert(pattern_matches(patterns@[j]@, c));
            }
        }
    }
    None
}

} // verus!
