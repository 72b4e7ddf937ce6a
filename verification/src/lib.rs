//! A vanity-key search engine for ed25519 keys in the OpenSSH text encoding.
//!
//! The library parses user patterns (a literal suffix or a `/…/`-delimited
//! regular expression), generates fresh key pairs, matches the base64 payload
//! of the encoded public key against the patterns, and folds worker reports
//! into aggregate search statistics.

pub mod args;
pub mod format;
pub mod key_generator;
pub mod keypair;
pub mod manager;
pub mod message;
pub mod pattern;
pub mod text;
pub mod worker;

pub use args::Args;
pub use key_generator::{JsKeyPair, KeyGenerator};
pub use keypair::{generate_keypair, public_key_ends_with_suffix, KeyPair};
pub use manager::ManagerState;
pub use message::{SearchHit, SearchResult, WorkerMessage};
pub use pattern::{public_key_matches_pattern, ParseError, Pattern};
pub use text::{extract_base64_from_openssh_string, make_suffix_filesystem_safe};
pub use worker::generate_and_check_key;
