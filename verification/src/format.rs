//! The live progress text the aggregator renders: attempt counts, rates,
//! per-pattern expectations and hit counts.

use vstd::prelude::*;

use crate::manager::{hits_for, hits_wf, ManagerState};
use crate::pattern::{eta_spec, eta_text, pow64, sat_u64, Pattern, PatternView};
use crate::text::{dec_str, first_two_tokens, format_grouped, grouped3, push_char};

verus! {

/// The hit-count phrase: a grouped count and a correctly pluralized noun.
pub open spec fn hits_message(n_hits: nat) -> Seq<char> {
    grouped3(dec_str(n_hits)) + (if n_hits == 1 {
        " key found"@
    } else {
        " keys found"@
    })
}

/// Renders a hit count for display, pluralized: `1 key found`,
/// `2,048 keys found`.
pub fn format_hits_message(n_hits: u64) -> (r: String)
    ensures
        r@ == hits_message(n_hits as nat),
{
    let mut out = format_grouped(n_hits);
    if n_hits == 1 {
        out.append(" key found");
    } else {
        out.append(" keys found");
    }
    out
}

/// The per-pattern statistics line: for a suffix pattern its odds (one in
/// 64^length, clamped to the machine word) and the estimated time at the
/// given rate, abbreviated to two tokens; regex patterns have no estimate.
pub open spec fn pattern_stats(p: PatternView, rate: u64) -> Seq<char> {
    match p {
        PatternView::Suffix(s) => "Pattern '"@ + s + "': 1 in "@ + grouped3(
            dec_str(sat_u64(pow64(s.len())) as nat),
        ) + " (est. "@ + first_two_tokens(eta_text(eta_spec(p, rate))) + ")"@,
        PatternView::Regex(src) => "Pattern '"@ + src + "': regex pattern (no estimate)"@,
    }
}

/// Renders one pattern's statistics for the progress display.
pub fn format_pattern_stats(pattern: &Pattern, rate: u64) -> (r: String)
    ensures
        r@ == pattern_stats(pattern@, rate),
{
    let mut out = "Pattern '".to_owned();
    out.append(pattern.text());
    match pattern.expected_attempts() {
        Some(expected) => {
            out.append("': 1 in ");
            let clamped: u64 = if expected > u64::MAX as u128 {
                u64::MAX
            } else {
                expected as u64
            };
            out.append(format_grouped(clamped).as_str());
            out.append(" (est. ");
            let est = match pattern.estimate_time(rate) {
                Some(t) => t,
                None => {
                    proof {
                        assert(false);
                    }
                    String::new()
                },
            };
            out.append(crate::text::abbreviate_two_tokens(est.as_str()).as_str());
            out.append(")");
            assert(out@ =~= pattern_stats(pattern@, rate));
        },
        None => {
            out.append("': regex pattern (no estimate)");
            assert(out@ =~= pattern_stats(pattern@, rate));
        },
    }
    out
}

/// The head line of the progress display: the grouped attempt total and the
/// grouped instantaneous rate.
pub open spec fn attempts_line(total: u64, rate: u64) -> Seq<char> {
    "Attempts: "@ + grouped3(dec_str(total as nat)) + " ("@ + grouped3(dec_str(rate as nat))
        + " keys/sec)"@
}

/// The whole progress message: the attempts line, then one line per pattern
/// with its statistics, each suffixed by its hit count when any hit has been
/// recorded.
pub open spec fn progress_message(
    s: crate::manager::ManagerStateView,
    patterns: Seq<PatternView>,
    total: u64,
    rate: u64,
) -> Seq<char>
    decreases patterns.len(),
{
    if patterns.len() == 0 {
        attempts_line(total, rate)
    } else {
        let p = patterns.last();
        let n = hits_for(s.hits, p).len();
        progress_message(s, patterns.drop_last(), total, rate) + seq!['\n'] + pattern_stats(
            p,
            rate,
        ) + (if n > 0 {
            " | "@ + hits_message(n)
        } else {
            Seq::<char>::empty()
        })
    }
}

/// Renders the live progress message: the running totals, then each
/// pattern's statistics and hit count.
#[verifier::loop_isolation(false)]
pub fn update_progress_message(state: &ManagerState, patterns: &Vec<Pattern>, rate: u64) -> (r:
    String)
    requires
        hits_wf(state@.hits),
        state@.total_attempts <= u64::MAX,
    ensures
        r@ == progress_message(
            state@,
            patterns@.map_values(|p: Pattern| p@),
            (state@.total_attempts) as u64,
            rate,
        ),
{
    let total = state.total_attempts();
    let mut out = "Attempts: ".to_owned();
    out.append(format_grouped(total).as_str());
    out.append(" (");
    out.append(format_grouped(rate).as_str());
    out.append(" keys/sec)");
    assert(out@ =~= attempts_line(total, rate));
    let ghost pviews = patterns@.map_values(|p: Pattern| p@);
    let n = patterns.len();
    let mut i: usize = 0;
    assert(pviews.subrange(0, 0) =~= Seq::<PatternView>::empty());
    while i < n
        invariant
            0 <= i <= n,
            out@ == progress_message(state@, pviews.subrange(0, i as int), total, rate),
        decreases n - i,
    {
        let pattern = &patterns[i];
        push_char(&mut out, '\n');
        out.append(format_pattern_stats(pattern, rate).as_str());
        let n_hits = state.get_pattern_hits(pattern);
        if n_hits > 0 {
            out.append(" | ");
            out.append(format_hits_message(n_hits as u64).as_str());
        }
        proof {
            assert(pviews.subrange(0, i + 1).drop_last() =~= pviews.subrange(0, i as int));
            assert(pviews.subrange(0, i + 1).last() == pviews[i as int]);
            assert(out@ =~= progress_message(state@, pviews.subrange(0, i + 1), total, rate));
        }
        i = i + 1;
    }
    assert(pviews.subrange(0, n as int) =~= pviews);
    out
}

/// The single-pattern progress message of the simple monitor: the attempts
/// line, and for a suffix pattern its odds and estimated time on two more
/// lines.
pub open spec fn monitor_message(p: PatternView, total: u64, rate: u64) -> Seq<char> {
    match p {
        PatternView::Regex(_) => attempts_line(total, rate),
        PatternView::Suffix(s) => attempts_line(total, rate) + "\nProbability: 1 in "@ + grouped3(
            dec_str(sat_u64(pow64(s.len())) as nat),
        ) + "\nEst. time: "@ + first_two_tokens(eta_text(eta_spec(p, rate))),
    }
}

/// Renders the single-pattern progress message.
pub fn monitor_progress_message(pattern: &Pattern, total: u64, rate: u64) -> (r: String)
    ensures
        r@ == monitor_message(pattern@, total, rate),
{
    let mut out = "Attempts: ".to_owned();
    out.append(format_grouped(total).as_str());
    out.append(" (");
    out.append(format_grouped(rate).as_str());
    out.append(" keys/sec)");
    assert(out@ =~= attempts_line(total, rate));
    match pattern.expected_attempts() {
        None => out,
        Some(expected) => {
            out.append("\nProbability: 1 in ");
            let clamped: u64 = if expected > u64::MAX as u128 {
                u64::MAX
            } else {
                expected as u64
            };
            out.append(format_grouped(clamped).as_str());
            out.append("\nEst. time: ");
            let est = match pattern.estimate_time(rate) {
                Some(t) => t,
                None => {
                    proof {
                        assert(false);
                    }
                    String::new()
                },
            };
            out.append(crate::text::abbreviate_two_tokens(est.as_str()).as_str());
            assert(out@ =~= monitor_message(pattern@, total, rate));
            out
        },
    }
}

} // verus!
