use ssh_gen_rs::format::{format_hits_message, format_pattern_stats, monitor_progress_message,
    update_progress_message};
use ssh_gen_rs::keypair::generate_keypair;
use ssh_gen_rs::manager::ManagerState;
use ssh_gen_rs::message::{SearchHit, WorkerMessage};
use ssh_gen_rs::pattern::Pattern;
use ssh_gen_rs::worker::{WorkerAction, WorkerCounter, REPORT_BATCH};

fn progress(attempts: u64) -> WorkerMessage {
    WorkerMessage { attempts, search_hit: None }
}

fn hit(attempts: u64, pattern: &Pattern) -> WorkerMessage {
    WorkerMessage {
        attempts,
        search_hit: Some(SearchHit { key_pair: generate_keypair(), pattern: pattern.clone() }),
    }
}

#[test]
fn total_attempts_is_the_sum_of_all_reports() {
    let p = Pattern::new("ab".to_string()).unwrap();
    let mut state = ManagerState::new();
    assert_eq!(state.total_attempts(), 0);
    for msg in [progress(100), progress(200), hit(50, &p), progress(0), progress(7)] {
        state.process_message(msg, false);
    }
    assert_eq!(state.total_attempts(), 357);
}

#[test]
fn stop_after_first_match_stops_exactly_on_the_first_hit() {
    let p = Pattern::new("ab".to_string()).unwrap();
    let mut state = ManagerState::new();
    assert!(!state.is_stopped());
    let r = state.process_message(progress(10), true);
    assert!(r.is_none());
    assert!(!state.is_stopped());
    let r = state.process_message(hit(5, &p), true);
    assert!(r.is_some());
    assert!(state.is_stopped());
    assert_eq!(state.get_pattern_hits(&p), 1);
}

#[test]
fn keep_searching_accumulates_hits_without_stopping() {
    let p = Pattern::new("ab".to_string()).unwrap();
    let q = Pattern::new("/^A/".to_string()).unwrap();
    let mut state = ManagerState::new();
    state.process_message(hit(1, &p), false);
    state.process_message(hit(2, &q), false);
    state.process_message(hit(3, &p), false);
    assert!(!state.is_stopped());
    assert_eq!(state.get_pattern_hits(&p), 2);
    assert_eq!(state.get_pattern_hits(&q), 1);
    let other = Pattern::new("zz".to_string()).unwrap();
    assert_eq!(state.get_pattern_hits(&other), 0);
    assert_eq!(state.total_attempts(), 6);
}

#[test]
fn returned_hit_carries_the_key_and_pattern() {
    let p = Pattern::new("ab".to_string()).unwrap();
    let mut state = ManagerState::new();
    let msg = hit(5, &p);
    let expected_key = msg.search_hit.as_ref().unwrap().key_pair.public_key_string();
    let returned = state.process_message(msg, true).unwrap();
    assert!(returned.pattern == p);
    assert_eq!(returned.key_pair.public_key_string(), expected_key);
}

#[test]
fn add_key_pair_keys_by_pattern_identity() {
    let p1 = Pattern::new("ab".to_string()).unwrap();
    let p2 = Pattern::new("ab".to_string()).unwrap();
    let mut state = ManagerState::new();
    state.add_key_pair(p1.clone(), generate_keypair());
    state.add_key_pair(p2, generate_keypair());
    assert_eq!(state.get_pattern_hits(&p1), 2);
}

#[test]
fn worker_counter_flushes_every_full_batch() {
    let mut counter = WorkerCounter::new();
    for i in 1..REPORT_BATCH {
        match counter.note_attempt(false) {
            WorkerAction::Continue => assert!(i < REPORT_BATCH),
            _ => panic!("flushed before the batch filled"),
        }
    }
    match counter.note_attempt(false) {
        WorkerAction::FlushProgress(n) => assert_eq!(n, REPORT_BATCH),
        _ => panic!("expected a progress flush at the batch boundary"),
    }
    match counter.note_attempt(false) {
        WorkerAction::Continue => {},
        _ => panic!("the counter must reset after a flush"),
    }
}

#[test]
fn worker_counter_reports_hits_with_pending_attempts() {
    let mut counter = WorkerCounter::new();
    counter.note_attempt(false);
    counter.note_attempt(false);
    counter.note_attempt(false);
    match counter.note_attempt(true) {
        WorkerAction::ReportHit(n) => assert_eq!(n, 4),
        _ => panic!("expected a hit report"),
    }
    match counter.note_attempt(true) {
        WorkerAction::ReportHit(n) => assert_eq!(n, 1),
        _ => panic!("expected a hit report"),
    }
}

#[test]
fn search_result_summarizes_a_session() {
    let p = Pattern::new("ab".to_string()).unwrap();
    let mut state = ManagerState::new();
    let found = state.process_message(hit(42, &p), true).unwrap();
    let result = ssh_gen_rs::message::SearchResult {
        key_pair: found.key_pair,
        total_attempts: state.total_attempts(),
        duration_millis: 1500,
    };
    assert_eq!(result.total_attempts, 42);
    assert!(result.key_pair.public_key_string().starts_with("ssh-ed25519 "));
}

#[test]
fn hits_message_pluralizes_and_groups() {
    assert_eq!(format_hits_message(1), "1 key found");
    assert_eq!(format_hits_message(2), "2 keys found");
    assert_eq!(format_hits_message(0), "0 keys found");
    assert_eq!(format_hits_message(2048), "2,048 keys found");
    assert_eq!(format_hits_message(1_000_000), "1,000,000 keys found");
}

#[test]
fn pattern_stats_line_for_suffix_and_regex() {
    let p = Pattern::new("ab".to_string()).unwrap();
    assert_eq!(format_pattern_stats(&p, 100), "Pattern 'ab': 1 in 4,096 (est. 40s)");
    let r = Pattern::new("/^A/".to_string()).unwrap();
    assert_eq!(format_pattern_stats(&r, 100), "Pattern '^A': regex pattern (no estimate)");
}

#[test]
fn progress_message_lists_every_pattern() {
    let p = Pattern::new("ab".to_string()).unwrap();
    let r = Pattern::new("/^A/".to_string()).unwrap();
    let patterns = vec![p.clone(), r];
    let mut state = ManagerState::new();
    state.process_message(progress(12345), false);
    let msg = update_progress_message(&state, &patterns, 100);
    assert_eq!(
        msg,
        "Attempts: 12,345 (100 keys/sec)\nPattern 'ab': 1 in 4,096 (est. 40s)\nPattern '^A': regex pattern (no estimate)"
    );
    state.process_message(hit(5, &p), false);
    let msg = update_progress_message(&state, &patterns, 100);
    assert_eq!(
        msg,
        "Attempts: 12,350 (100 keys/sec)\nPattern 'ab': 1 in 4,096 (est. 40s) | 1 key found\nPattern '^A': regex pattern (no estimate)"
    );
}

#[test]
fn monitor_message_shows_probability_for_suffix_only() {
    let p = Pattern::new("ab".to_string()).unwrap();
    assert_eq!(
        monitor_progress_message(&p, 12345, 100),
        "Attempts: 12,345 (100 keys/sec)\nProbability: 1 in 4,096\nEst. time: 40s"
    );
    let r = Pattern::new("/^A/".to_string()).unwrap();
    assert_eq!(monitor_progress_message(&r, 7, 3), "Attempts: 7 (3 keys/sec)");
}
