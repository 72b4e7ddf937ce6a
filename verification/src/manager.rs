//! The aggregator: folds worker reports into running statistics, records
//! hits per pattern, and decides when the search session stops.

use vstd::prelude::*;

use crate::keypair::{KeyPair, KeyPairView};
use crate::message::{SearchHit, WorkerMessage, WorkerMessageView};
use crate::pattern::{Pattern, PatternView};

verus! {

/// The hits recorded so far for one pattern: each key pair found for it, in
/// order of arrival.
pub struct PatternHits {
    pub pattern: Pattern,
    pub key_pairs: Vec<KeyPair>,
}

impl View for PatternHits {
    type V = (PatternView, Seq<KeyPairView>);

    open spec fn view(&self) -> (PatternView, Seq<KeyPairView>) {
        (self.pattern@, self.key_pairs@.map_values(|k: KeyPair| k@))
    }
}

/// The ghost content of the aggregator's state. The total is unbounded
/// here; the executable state bounds it by the machine word.
#[verifier::ext_equal]
pub struct ManagerStateView {
    pub total_attempts: int,
    pub hits: Seq<(PatternView, Seq<KeyPairView>)>,
    pub stopped: bool,
}

/// Well-formedness of a hit table: at most one entry per pattern, as a map
/// keyed by patterns would guarantee.
pub open spec fn hits_wf(hits: Seq<(PatternView, Seq<KeyPairView>)>) -> bool {
    forall|i: int, j: int| 0 <= i < j < hits.len() ==> hits[i].0 != hits[j].0
}

/// Whether a hit table holds an entry for the pattern.
pub open spec fn contains_pattern(
    hits: Seq<(PatternView, Seq<KeyPairView>)>,
    p: PatternView,
) -> bool {
    exists|i: int| 0 <= i < hits.len() && hits[i].0 == p
}

/// The index of the pattern's entry in a hit table that contains it.
pub open spec fn index_of_pattern(
    hits: Seq<(PatternView, Seq<KeyPairView>)>,
    p: PatternView,
) -> int {
    choose|i: int| 0 <= i < hits.len() && hits[i].0 == p
}

/// The key pairs a hit table records for a pattern (empty if none).
pub open spec fn hits_for(
    hits: Seq<(PatternView, Seq<KeyPairView>)>,
    p: PatternView,
) -> Seq<KeyPairView> {
    if contains_pattern(hits, p) {
        hits[index_of_pattern(hits, p)].1
    } else {
        Seq::<KeyPairView>::empty()
    }
}

/// A hit table with one more key pair recorded for `p`: appended to the
/// pattern's entry, or in a new final entry when the pattern has none yet.
pub open spec fn add_hit(
    hits: Seq<(PatternView, Seq<KeyPairView>)>,
    p: PatternView,
    k: KeyPairView,
) -> Seq<(PatternView, Seq<KeyPairView>)> {
    if contains_pattern(hits, p) {
        let i = index_of_pattern(hits, p);
        hits.update(i, (p, hits[i].1.push(k)))
    } else {
        hits.push((p, seq![k]))
    }
}

/// Law: recording a hit keeps the hit table well-formed — patterns stay
/// unique keys.
pub proof fn lemma_add_hit_preserves_wf(
    hits: Seq<(PatternView, Seq<KeyPairView>)>,
    p: PatternView,
    k: KeyPairView,
)
    requires
        hits_wf(hits),
    ensures
        hits_wf(add_hit(hits, p, k)),
{
    if contains_pattern(hits, p) {
        let i = index_of_pattern(hits, p);
        assert(0 <= i < hits.len() && hits[i].0 == p);
    }
}

/// One aggregator step: the attempts are always added to the total; a hit,
/// when present, is recorded under its pattern, and under the
/// stop-after-first-match policy it stops the session. The stop flag is
/// monotonic: once set it stays set.
pub open spec fn apply_message(
    s: ManagerStateView,
    m: WorkerMessageView,
    stop_after_match: bool,
) -> ManagerStateView {
    match m.search_hit {
        None => ManagerStateView { total_attempts: s.total_attempts + m.attempts, ..s },
        Some(h) => ManagerStateView {
            total_attempts: s.total_attempts + m.attempts,
            hits: add_hit(s.hits, h.pattern, h.key_pair),
            stopped: s.stopped || stop_after_match,
        },
    }
}

/// The aggregator folded over a whole sequence of reports, first to last.
pub open spec fn apply_messages(
    s: ManagerStateView,
    msgs: Seq<WorkerMessageView>,
    stop_after_match: bool,
) -> ManagerStateView
    decreases msgs.len(),
{
    if msgs.len() == 0 {
        s
    } else {
        apply_messages(apply_message(s, msgs[0], stop_after_match), msgs.drop_first(),
            stop_after_match)
    }
}

/// The sum of the attempts fields of a sequence of reports.
pub open spec fn sum_attempts(msgs: Seq<WorkerMessageView>) -> int
    decreases msgs.len(),
{
    if msgs.len() == 0 {
        0
    } else {
        msgs[0].attempts + sum_attempts(msgs.drop_first())
    }
}

/// Law: after processing any sequence of worker reports, in any order, the
/// aggregator's total is exactly the sum of every attempts field received —
/// no report is double-counted or dropped.
pub proof fn lemma_total_attempts_is_sum(
    s: ManagerStateView,
    msgs: Seq<WorkerMessageView>,
    stop_after_match: bool,
)
    ensures
        apply_messages(s, msgs, stop_after_match).total_attempts == s.total_attempts
            + sum_attempts(msgs),
    decreases msgs.len(),
{
    if msgs.len() > 0 {
        lemma_total_attempts_is_sum(
            apply_message(s, msgs[0], stop_after_match),
            msgs.drop_first(),
            stop_after_match,
        );
    }
}

/// Law: the stop flag is monotonic across aggregator steps — once a session
/// has stopped, no later report resumes it.
pub proof fn lemma_stop_flag_monotonic(
    s: ManagerStateView,
    msgs: Seq<WorkerMessageView>,
    stop_after_match: bool,
)
    ensures
        s.stopped ==> apply_messages(s, msgs, stop_after_match).stopped,
    decreases msgs.len(),
{
    if msgs.len() > 0 {
        lemma_stop_flag_monotonic(
            apply_message(s, msgs[0], stop_after_match),
            msgs.drop_first(),
            stop_after_match,
        );
    }
}

/// Law: under the stop-after-first-match policy, the aggregator stops
/// exactly when some report carried a hit.
pub proof fn lemma_stops_iff_hit(s: ManagerStateView, msgs: Seq<WorkerMessageView>)
    requires
        !s.stopped,
    ensures
        apply_messages(s, msgs, true).stopped <==> exists|i: int|
            0 <= i < msgs.len() && msgs[i].search_hit is Some,
    decreases msgs.len(),
{
    if msgs.len() > 0 {
        let s1 = apply_message(s, msgs[0], true);
        if msgs[0].search_hit is Some {
            lemma_stop_flag_monotonic(s1, msgs.drop_first(), true);
        } else {
            lemma_stops_iff_hit(s1, msgs.drop_first());
            assert forall|i: int| 0 <= i < msgs.len() && msgs[i].search_hit is Some
                implies exists|j: int|
                0 <= j < msgs.drop_first().len() && msgs.drop_first()[j].search_hit is Some by {
                assert(msgs.drop_first()[i - 1] == msgs[i]);
            }
        }
    }
}

/// The aggregator's state: the running attempt total, the hits recorded per
/// pattern, and whether the session has stopped. Single-threaded: the sole
/// consumer of worker reports.
pub struct ManagerState {
    total_attempts: u64,
    pattern_key_pairs: Vec<PatternHits>,
    stopped: bool,
}

impl View for ManagerState {
    type V = ManagerStateView;

    closed spec fn view(&self) -> ManagerStateView {
        ManagerStateView {
            total_attempts: self.total_attempts as int,
            hits: self.pattern_key_pairs@.map_values(|h: PatternHits| h@),
            stopped: self.stopped,
        }
    }
}

impl ManagerState {
    /// A fresh aggregator: no attempts, no hits, not stopped.
    pub fn new() -> (r: ManagerState)
        ensures
            r@ == (ManagerStateView {
                total_attempts: 0,
                hits: Seq::<(PatternView, Seq<KeyPairView>)>::empty(),
                stopped: false,
            }),
    {
        let r = ManagerState { total_attempts: 0, pattern_key_pairs: Vec::new(), stopped: false };
        proof {
            assert(r@.hits =~= Seq::<(PatternView, Seq<KeyPairView>)>::empty());
            assert(r@ =~= ManagerStateView {
                total_attempts: 0,
                hits: Seq::<(PatternView, Seq<KeyPairView>)>::empty(),
                stopped: false,
            });
        }
        r
    }

    /// The running total of attempts received.
    pub fn total_attempts(&self) -> (r: u64)
        ensures
            r as int == self@.total_attempts,
    {
        self.total_attempts
    }

    /// Whether the session has stopped.
    pub fn is_stopped(&self) -> (r: bool)
        ensures
            r == self@.stopped,
    {
        self.stopped
    }

    /// Adds a report's attempt count to the running total.
    pub fn update_attempts(&mut self, attempts: u64)
        requires
            old(self)@.total_attempts + attempts <= u64::MAX,
        ensures
            final(self)@ == (ManagerStateView {
                total_attempts: old(self)@.total_attempts + attempts,
                ..old(self)@
            }),
    {
        self.total_attempts = self.total_attempts + attempts;
        assert(self@ =~= ManagerStateView {
            total_attempts: old(self)@.total_attempts + attempts,
            ..old(self)@
        });
    }

    /// Records one key pair found for `pattern`, appending to the pattern's
    /// entry or opening a new one.
    #[verifier::loop_isolation(false)]
    pub fn add_key_pair(&mut self, pattern: Pattern, key_pair: KeyPair)
        requires
            hits_wf(old(self)@.hits),
        ensures
            final(self)@ == (ManagerStateView {
                hits: add_hit(old(self)@.hits, pattern@, key_pair@),
                ..old(self)@
            }),
            hits_wf(final(self)@.hits),
    {
        proof {
            lemma_add_hit_preserves_wf(self@.hits, pattern@, key_pair@);
        }
        let ghost old_hits = self@.hits;
        let n = self.pattern_key_pairs.len();
        let mut i: usize = 0;
        while i < n
            invariant
                0 <= i <= n,
                self == old(self),
                forall|j: int| 0 <= j < i ==> self.pattern_key_pairs@[j].pattern@ != pattern@,
            decreases n - i,
        {
            if self.pattern_key_pairs[i].pattern.eq(&pattern) {
                proof {
                    assert(old_hits[i as int].0 == pattern@);
                    assert(contains_pattern(old_hits, pattern@));
                    let w = index_of_pattern(old_hits, pattern@);
                    assert(0 <= w < old_hits.len() && old_hits[w].0 == pattern@);
                    assert(w == i);
                }
                let ghost prev = self.pattern_key_pairs@;
                let mut entry = self.pattern_key_pairs.remove(i);
                entry.key_pairs.push(key_pair);
                self.pattern_key_pairs.insert(i, entry);
                proof {
                    assert(self.pattern_key_pairs@ =~= prev.update(
                        i as int,
                        self.pattern_key_pairs@[i as int],
                    ));
                    assert(self.pattern_key_pairs@[i as int]@.1 =~= old_hits[i as int].1.push(
                        key_pair@,
                    ));
                    assert(self@.hits =~~= add_hit(old_hits, pattern@, key_pair@));
                    assert(self@ =~~= (ManagerStateView {
                        hits: add_hit(old(self)@.hits, pattern@, key_pair@),
                        ..old(self)@
                    }));
                }
                return ;
            }
            i = i + 1;
        }
        proof {
            assert forall|j: int| 0 <= j < old_hits.len() implies old_hits[j].0 != pattern@ by {
                assert(old_hits[j] == self.pattern_key_pairs@[j]@);
            }
            assert(!contains_pattern(old_hits, pattern@));
        }
        let mut key_pairs: Vec<KeyPair> = Vec::new();
        key_pairs.push(key_pair);
        self.pattern_key_pairs.push(PatternHits { pattern, key_pairs });
        proof {
            assert(self.pattern_key_pairs@.last()@.1 =~= seq![key_pair@]);
            assert(self@.hits =~~= add_hit(old_hits, pattern@, key_pair@));
            assert(self@ =~~= (ManagerStateView {
                hits: add_hit(old(self)@.hits, pattern@, key_pair@),
                ..old(self)@
            }));
        }
    }

    /// How many hits the aggregator has recorded for `pattern`.
    #[verifier::loop_isolation(false)]
    pub fn get_pattern_hits(&self, pattern: &Pattern) -> (r: usize)
        requires
            hits_wf(self@.hits),
        ensures
            r == hits_for(self@.hits, pattern@).len(),
    {
        let n = self.pattern_key_pairs.len();
        let mut i: usize = 0;
        while i < n
            invariant
                0 <= i <= n,
                forall|j: int| 0 <= j < i ==> self.pattern_key_pairs@[j].pattern@ != pattern@,
            decreases n - i,
        {
            if self.pattern_key_pairs[i].pattern.eq(pattern) {
                proof {
                    assert(self@.hits[i as int].0 == pattern@);
                    assert(contains_pattern(self@.hits, pattern@));
                    let w = index_of_pattern(self@.hits, pattern@);
                    assert(0 <= w < self@.hits.len() && self@.hits[w].0 == pattern@);
                    assert(w == i);
                }
                return self.pattern_key_pairs[i].key_pairs.len();
            }
            i = i + 1;
        }
        proof {
            assert forall|j: int| 0 <= j < self@.hits.len() implies self@.hits[j].0 != pattern@ by {
                assert(self@.hits[j] == self.pattern_key_pairs@[j]@);
            }
            assert(!contains_pattern(self@.hits, pattern@));
        }
        0
    }

    /// Processes one worker report: adds its attempts to the total; when it
    /// carries a hit, records a copy under the hit's pattern, stops the
    /// session if the stop-after-first-match policy is on, and hands the hit
    /// back for the caller's side effects (saving, notifying). The state
    /// steps exactly by `apply_message`.
    pub fn process_message(&mut self, msg: WorkerMessage, stop_after_match: bool) -> (r: Option<
        SearchHit,
    >)
        requires
            old(self)@.total_attempts + msg.attempts <= u64::MAX,
            hits_wf(old(self)@.hits),
        ensures
            final(self)@ == apply_message(old(self)@, msg@, stop_after_match),
            hits_wf(final(self)@.hits),
            match r {
                Some(h) => msg@.search_hit == Some(h@),
                None => msg@.search_hit is None,
            },
    {
        self.update_attempts(msg.attempts);
        match msg.search_hit {
            None => None,
            Some(hit) => {
                self.add_key_pair(hit.pattern.clone(), hit.key_pair.clone());
                self.stopped = self.stopped || stop_after_match;
                assert(self@ =~~= apply_message(old(self)@, msg@, stop_after_match));
                Some(hit)
            },
        }
    }
}

} // verus!
