//! The messages that flow from search workers to the aggregator, and the
//! terminal summary of a search.

use vstd::prelude::*;

use crate::keypair::{KeyPair, KeyPairView};
use crate::pattern::{Pattern, PatternView};

verus! {

/// The ghost content of a hit: which key was found and which pattern it satisfied.
pub struct SearchHitView {
    pub key_pair: KeyPairView,
    pub pattern: PatternView,
}

/// A matched key pair together with the pattern it satisfied. Created by a
/// worker the instant a match is found; consumed by the aggregator.
pub struct SearchHit {
    pub key_pair: KeyPair,
    pub pattern: Pattern,
}

impl View for SearchHit {
    type V = SearchHitView;

    open spec fn view(&self) -> SearchHitView {
        SearchHitView { key_pair: self.key_pair@, pattern: self.pattern@ }
    }
}

/// The ghost content of a worker report.
pub struct WorkerMessageView {
    pub attempts: u64,
    pub search_hit: Option<SearchHitView>,
}

/// One report on the worker-to-aggregator channel: the attempts made since
/// the last report, plus the hit found in that span, if any.
pub struct WorkerMessage {
    pub attempts: u64,
    pub search_hit: Option<SearchHit>,
}

impl View for WorkerMessage {
    type V = WorkerMessageView;

    open spec fn view(&self) -> WorkerMessageView {
        WorkerMessageView {
            attempts: self.attempts,
            search_hit: match self.search_hit {
                Some(h) => Some(h@),
                None => None,
            },
        }
    }
}

/// A terminal summary: the found key pair, how many attempts the search
/// took in total, and how long it ran.
pub struct SearchResult {
    pub key_pair: KeyPair,
    pub total_attempts: u64,
    pub duration_millis: u64,
}

} // verus!
