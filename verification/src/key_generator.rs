//! The batch key generator behind the browser front end: validates a set of
//! pattern inputs once, then searches in bounded batches, counting attempts.

use vstd::prelude::*;

use crate::keypair::{comparable_string_of, openssh_private_text, openssh_public_text, KeyPairView};
use crate::pattern::{is_regex_input, parsed_pattern, pattern_matches, regex_compiles,
    regex_interior, Pattern, PatternView};
use crate::worker::generate_and_check_key;

verus! {

/// The largest batch one call may run.
pub const MAX_BATCH_SIZE: u32 = 10000;

/// The longest accepted pattern input, in characters.
pub const MAX_PATTERN_LEN: usize = 100;

/// The ghost content of an exported key pair: the two rendered texts.
pub struct JsKeyPairView {
    pub public_key: Seq<char>,
    pub private_key: Seq<char>,
}

/// A key pair rendered for export across the interface boundary: the two
/// canonical texts, nothing else.
pub struct JsKeyPair {
    public_key: String,
    private_key: String,
}

impl View for JsKeyPair {
    type V = JsKeyPairView;

    closed spec fn view(&self) -> JsKeyPairView {
        JsKeyPairView { public_key: self.public_key@, private_key: self.private_key@ }
    }
}

impl JsKeyPair {
    /// The rendered public key.
    pub fn public_key(&self) -> (r: String)
        ensures
            r@ == self@.public_key,
    {
        self.public_key.clone()
    }

    /// The rendered private key.
    pub fn private_key(&self) -> (r: String)
        ensures
            r@ == self@.private_key,
    {
        self.private_key.clone()
    }

    /// Packs two rendered keys for export.
    pub fn from_keypair(public_key_str: &str, private_key_str: &str) -> (r: Self)
        ensures
            r@.public_key == public_key_str@,
            r@.private_key == private_key_str@,
    {
        JsKeyPair {
            public_key: public_key_str.to_owned(),
            private_key: private_key_str.to_owned(),
        }
    }
}

/// The ghost content of a generator: its patterns, the attempts made so
/// far, the re-entrancy guard, and the last reported error.
#[verifier::ext_equal]
pub struct KeyGeneratorView {
    pub patterns: Seq<PatternView>,
    pub attempts: u64,
    pub is_running: bool,
    pub last_error: Option<Seq<char>>,
}

/// Whether a set of pattern inputs is accepted: at least one, none longer
/// than the bound, and every `/…/` interior accepted by the regex engine.
pub open spec fn valid_pattern_inputs(inputs: Seq<Seq<char>>) -> bool {
    &&& inputs.len() > 0
    &&& forall|i: int| 0 <= i < inputs.len() ==> #[trigger] inputs[i].len() <= MAX_PATTERN_LEN
    &&& forall|i: int|
        0 <= i < inputs.len() ==> (is_regex_input(#[trigger] inputs[i]) ==> regex_compiles(
            regex_interior(inputs[i]),
        ))
}

/// A batch searcher: holds the parsed patterns and a running attempt count.
pub struct KeyGenerator {
    patterns: Vec<Pattern>,
    attempts: u64,
    is_running: bool,
    last_error: Option<String>,
}

impl View for KeyGenerator {
    type V = KeyGeneratorView;

    closed spec fn view(&self) -> KeyGeneratorView {
        KeyGeneratorView {
            patterns: self.patterns@.map_values(|p: Pattern| p@),
            attempts: self.attempts,
            is_running: self.is_running,
            last_error: match self.last_error {
                Some(e) => Some(e@),
                None => None,
            },
        }
    }
}

impl KeyGenerator {
    /// Validates and parses the pattern inputs: rejects an empty set, a
    /// pattern over the length bound, and a regex interior the engine
    /// refuses (in that order); otherwise starts with zero attempts.
    #[verifier::loop_isolation(false)]
    pub fn new(patterns: Vec<String>) -> (r: Result<KeyGenerator, String>)
        ensures
            r is Ok <==> valid_pattern_inputs(patterns@.map_values(|s: String| s@)),
            patterns@.len() == 0 ==> r is Err && r->Err_0@ == "No patterns provided"@,
            patterns@.len() > 0 && (exists|i: int|
                0 <= i < patterns@.len() && #[trigger] patterns@[i]@.len() > MAX_PATTERN_LEN)
                ==> r is Err && r->Err_0@ == "Pattern too long"@,
            r matches Ok(g) ==> g@ == (KeyGeneratorView {
                patterns: patterns@.map_values(|s: String| parsed_pattern(s@)),
                attempts: 0,
                is_running: false,
                last_error: None,
            }),
    {
        let ghost inputs = patterns@.map_values(|s: String| s@);
        if patterns.is_empty() {
            return Err("No patterns provided".to_owned());
        }
        let n = patterns.len();
        let mut i: usize = 0;
        while i < n
            invariant
                0 <= i <= n == patterns@.len(),
                inputs == patterns@.map_values(|s: String| s@),
                forall|j: int| 0 <= j < i ==> #[trigger] inputs[j].len() <= MAX_PATTERN_LEN,
            decreases n - i,
        {
            if patterns[i].as_str().unicode_len() > MAX_PATTERN_LEN {
                proof {
                    assert(inputs[i as int] == patterns@[i as int]@);
                    assert(inputs[i as int].len() > MAX_PATTERN_LEN);
                    assert(!valid_pattern_inputs(inputs));
                }
                return Err("Pattern too long".to_owned());
            }
            i = i + 1;
        }
        proof {
            assert forall|j: int| 0 <= j < patterns@.len() implies #[trigger] patterns@[j]@.len()
                <= MAX_PATTERN_LEN by {
                assert(inputs[j] == patterns@[j]@);
            }
        }
        let mut parsed: Vec<Pattern> = Vec::new();
        let mut i: usize = 0;
        while i < n
            invariant
                0 <= i <= n == patterns@.len(),
                inputs == patterns@.map_values(|s: String| s@),
                parsed@.len() == i,
                forall|j: int| 0 <= j < n ==> #[trigger] inputs[j].len() <= MAX_PATTERN_LEN,
                forall|j: int|
                    0 <= j < i ==> (is_regex_input(#[trigger] inputs[j]) ==> regex_compiles(
                        regex_interior(inputs[j]),
                    )),
                forall|j: int| 0 <= j < i ==> #[trigger] parsed@[j]@ == parsed_pattern(inputs[j]),
            decreases n - i,
        {
            let input = patterns[i].clone();
            match Pattern::new(input) {
                Ok(p) => {
                    parsed.push(p);
                },
                Err(e) => {
                    proof {
                        assert(inputs[i as int] == patterns@[i as int]@);
                        assert(is_regex_input(inputs[i as int]) && !regex_compiles(
                            regex_interior(inputs[i as int]),
                        ));
                        assert(!valid_pattern_inputs(inputs));
                        assert forall|j: int| 0 <= j < patterns@.len()
                            implies #[trigger] patterns@[j]@.len() <= MAX_PATTERN_LEN by {
                            assert(inputs[j] == patterns@[j]@);
                        }
                    }
                    return Err(e.message);
                },
            }
            i = i + 1;
        }
        let g = KeyGenerator { patterns: parsed, attempts: 0, is_running: false, last_error: None };
        proof {
            assert(g@.patterns =~= patterns@.map_values(|s: String| parsed_pattern(s@)));
            assert(g@ =~~= (KeyGeneratorView {
                patterns: patterns@.map_values(|s: String| parsed_pattern(s@)),
                attempts: 0,
                is_running: false,
                last_error: None,
            }));
        }
        Ok(g)
    }

    /// Runs up to `batch_size` attempts, stopping at the first key whose
    /// comparable string matches one of the patterns, and counting every
    /// attempt made. Re-entry and an oversized batch are refused. When one
    /// of the patterns is an empty suffix, every candidate matches, so any
    /// accepted, non-empty batch is owed a key.
    #[verifier::loop_isolation(false)]
    pub fn generate_batch(&mut self, batch_size: u32) -> (r: Option<JsKeyPair>)
        requires
            old(self)@.attempts + batch_size <= u64::MAX,
        ensures
            !old(self)@.is_running && 1 <= batch_size <= MAX_BATCH_SIZE && (exists|i: int|
                0 <= i < old(self)@.patterns.len() && old(self)@.patterns[i]
                    == PatternView::Suffix(Seq::<char>::empty())) ==> r is Some,
            old(self)@.is_running ==> r is None && final(self)@ == old(self)@,
            !old(self)@.is_running && batch_size > MAX_BATCH_SIZE ==> r is None && final(self)@
                == (KeyGeneratorView { last_error: Some("Batch size too large"@), ..old(self)@ }),
            !old(self)@.is_running && batch_size <= MAX_BATCH_SIZE ==> {
                &&& final(self)@.patterns == old(self)@.patterns
                &&& !final(self)@.is_running
                &&& final(self)@.last_error is None
                &&& old(self)@.attempts <= final(self)@.attempts <= old(self)@.attempts
                    + batch_size
                &&& (r is None ==> final(self)@.attempts == old(self)@.attempts + batch_size)
                &&& (r matches Some(j) ==> exists|kp: KeyPairView|
                    {
                        &&& j@.public_key == openssh_public_text(kp.public)
                        &&& j@.private_key == openssh_private_text(kp.private, kp.public)
                        &&& exists|i: int|
                            0 <= i < old(self)@.patterns.len() && pattern_matches(
                                #[trigger] old(self)@.patterns[i],
                                comparable_string_of(kp.public),
                            )
                    })
            },
    {
        if self.is_running {
            return None;
        }
        if batch_size > MAX_BATCH_SIZE {
            self.last_error = Some("Batch size too large".to_owned());
            assert(self@ =~~= (KeyGeneratorView {
                last_error: Some("Batch size too large"@),
                ..old(self)@
            }));
            return None;
        }
        self.is_running = true;
        self.last_error = None;
        let mut found: Option<JsKeyPair> = None;
        let mut k: u32 = 0;
        while k < batch_size && found.is_none()
            invariant
                0 <= k <= batch_size,
                self@.patterns == old(self)@.patterns,
                self.is_running,
                self.last_error is None,
                self.attempts == old(self)@.attempts + k,
                found matches Some(j) ==> exists|kp: KeyPairView|
                    {
                        &&& j@.public_key == openssh_public_text(kp.public)
                        &&& j@.private_key == openssh_private_text(kp.private, kp.public)
                        &&& exists|i: int|
                            0 <= i < old(self)@.patterns.len() && pattern_matches(
                                #[trigger] old(self)@.patterns[i],
                                comparable_string_of(kp.public),
                            )
                    },
                k >= 1 && (exists|i: int|
                    0 <= i < old(self)@.patterns.len() && old(self)@.patterns[i]
                        == PatternView::Suffix(Seq::<char>::empty())) ==> found is Some,
            decreases batch_size - k,
        {
            self.attempts = self.attempts + 1;
            proof {
                if exists|i: int|
                    0 <= i < old(self)@.patterns.len() && old(self)@.patterns[i]
                        == PatternView::Suffix(Seq::<char>::empty()) {
                    let w = choose|i: int|
                        0 <= i < old(self)@.patterns.len() && old(self)@.patterns[i]
                            == PatternView::Suffix(Seq::<char>::empty());
                    assert(old(self)@.patterns[w] == self.patterns@[w]@);
                    assert(exists|i: int|
                        0 <= i < self.patterns@.len() && self.patterns@[i]@
                            == PatternView::Suffix(Seq::<char>::empty()));
                }
            }
            if let Some((key_pair, pattern)) = generate_and_check_key(&self.patterns) {
                let public_key_str = key_pair.public_key_string();
                let private_key_str = key_pair.private_key_string();
                found = Some(JsKeyPair::from_keypair(public_key_str.as_str(),
                    private_key_str.as_str()));
                proof {
                    let kp = key_pair@;
                    let c = comparable_string_of(kp.public);
                    let w = choose|i: int|
                        0 <= i < self.patterns@.len() && pattern@ == self.patterns@[i]@
                            && pattern_matches(pattern@, c) && (forall|j: int|
                            0 <= j < i ==> !pattern_matches(self.patterns@[j]@, c));
                    assert(old(self)@.patterns[w] == self.patterns@[w]@);
                    assert(0 <= w < old(self)@.patterns.len() && pattern_matches(
                        #[trigger] old(self)@.patterns[w],
                        c,
                    ));
                }
            }
            k = k + 1;
        }
        self.is_running = false;
        found
    }

    /// How many attempts this generator has made in total.
    pub fn get_attempts(&self) -> (r: u64)
        ensures
            r == self@.attempts,
    {
        self.attempts
    }

    /// The error reported by the last refused batch, if any.
    pub fn get_last_error(&self) -> (r: Option<String>)
        ensures
            match r {
                Some(e) => self@.last_error == Some(e@),
                None => self@.last_error is None,
            },
    {
        match &self.last_error {
            Some(e) => Some(e.clone()),
            None => None,
        }
    }
}

} // verus!
