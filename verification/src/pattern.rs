//! Patterns: parsing a user string into a matching rule (literal suffix or
//! regular expression), matching candidate keys, and estimating the expected
//! cost of a suffix search.

use vstd::prelude::*;

use crate::keypair::{comparable_string_of, KeyPair};
use crate::text::{char_is_alphanumeric, dec_str, dec_string, push_char, suffix_matches,
    unicode_alphanumeric};

verus! {

#[verifier::external_type_specification]
#[verifier::external_body]
pub struct ExRegex(regex::Regex);

/// Names whether the regex engine accepts a pattern source string.
pub uninterp spec fn regex_compiles(source: Seq<char>) -> bool;

/// Names whether a compiled regular expression matches anywhere in a text;
/// a function of the pattern source and the text alone.
pub uninterp spec fn regex_match(source: Seq<char>, text: Seq<char>) -> bool;

/// A compiled regular expression together with the source it was compiled
/// from; only `compile_regex` constructs one, so the two always agree.
pub struct CompiledRegex {
    source: String,
    inner: regex::Regex,
}

impl View for CompiledRegex {
    type V = Seq<char>;

    closed spec fn view(&self) -> Seq<char> {
        self.source@
    }
}

/// Relies on regex::Regex::new: compilation succeeds exactly when the source
/// is accepted by the engine's grammar; on failure the engine's diagnostic is
/// rendered into the error string.
#[verifier::external_body]
fn compile_regex(source: &str) -> (r: Result<CompiledRegex, String>)
    ensures
        r is Ok <==> regex_compiles(source@),
        r is Ok ==> r->Ok_0@ == source@,
{
    match regex::Regex::new(source) {
        Ok(inner) => Ok(CompiledRegex { source: source.to_string(), inner }),
        Err(e) => Err(format!("{}", e)),
    }
}

/// Relies on regex::Regex::is_match: whether the expression matches anywhere
/// in the text, a function of the pattern source and the text alone.
#[verifier::external_body]
fn regex_is_match(re: &CompiledRegex, text: &str) -> (r: bool)
    ensures
        r == regex_match(re@, text@),
{
    re.inner.is_match(text)
}

impl Clone for CompiledRegex {
    /// Relies on regex::Regex::clone: an expression compiled from the same source.
    #[verifier::external_body]
    fn clone(&self) -> (r: Self)
        ensures
            r@ == self@,
    {
        CompiledRegex { source: self.source.clone(), inner: self.inner.clone() }
    }
}

/// A parse failure: the interior of a `/…/` input was rejected by the regex
/// engine. The message carries the engine's diagnostic.
#[derive(Debug)]
pub struct ParseError {
    pub message: String,
}

/// The mathematical content of a pattern: which rule it is, and its text
/// (the suffix itself, or the regular expression's source).
pub enum PatternView {
    Suffix(Seq<char>),
    Regex(Seq<char>),
}

/// A matching rule: a literal suffix, or a regular expression matched
/// anywhere in the candidate text. Immutable once parsed.
pub enum Pattern {
    Suffix(String),
    Regex(CompiledRegex),
}

impl View for Pattern {
    type V = PatternView;

    open spec fn view(&self) -> PatternView {
        match self {
            Pattern::Suffix(s) => PatternView::Suffix(s@),
            Pattern::Regex(re) => PatternView::Regex(re@),
        }
    }
}

/// Whether a pattern matches a candidate's comparable string.
pub open spec fn pattern_matches(p: PatternView, text: Seq<char>) -> bool {
    match p {
        PatternView::Suffix(s) => suffix_matches(text, s),
        PatternView::Regex(src) => regex_match(src, text),
    }
}

/// Whether an input string selects the regular-expression rule: it is
/// wrapped in the delimiter pair `/…/`.
pub open spec fn is_regex_input(s: Seq<char>) -> bool {
    s.len() >= 2 && s[0] == '/' && s[s.len() - 1] == '/'
}

/// The interior of a `/…/` input, with the delimiters stripped.
pub open spec fn regex_interior(s: Seq<char>) -> Seq<char> {
    s.subrange(1, s.len() - 1)
}

/// The view that parsing an input string yields when it succeeds.
pub open spec fn parsed_pattern(s: Seq<char>) -> PatternView {
    if is_regex_input(s) {
        PatternView::Regex(regex_interior(s))
    } else {
        PatternView::Suffix(s)
    }
}

impl Pattern {
    /// Parses a user input string. An input wrapped in `/…/` has the
    /// delimiters stripped and the interior compiled as a regular
    /// expression; compilation failure is the only way to fail. Any other
    /// input is a literal suffix, kept exactly.
    pub fn new(pattern: String) -> (r: Result<Self, ParseError>)
        ensures
            r is Ok <==> (!is_regex_input(pattern@) || regex_compiles(regex_interior(pattern@))),
            r is Ok ==> r->Ok_0@ == parsed_pattern(pattern@),
    {
        let n: usize = pattern.as_str().unicode_len();
        if n >= 2 && pattern.as_str().get_char(0) == '/' && pattern.as_str().get_char(n - 1)
            == '/' {
            let interior = pattern.as_str().substring_char(1, n - 1);
            assert(interior@ == regex_interior(pattern@));
            match compile_regex(interior) {
                Ok(re) => Ok(Pattern::Regex(re)),
                Err(message) => Err(ParseError { message }),
            }
        } else {
            assert(!is_regex_input(pattern@));
            Ok(Pattern::Suffix(pattern))
        }
    }

    /// Whether this pattern matches the given comparable string. The suffix
    /// case is an exact, case-sensitive tail comparison; the regex case
    /// reports a match anywhere in the string.
    pub fn matches_string(&self, base64_part: &str) -> (r: bool)
        ensures
            r == pattern_matches(self@, base64_part@),
    {
        match self {
            Pattern::Suffix(suffix) => crate::text::string_ends_with(base64_part, suffix.as_str()),
            Pattern::Regex(re) => regex_is_match(re, base64_part),
        }
    }

    /// Whether this pattern matches a key pair's comparable string.
    pub fn matches_keypair(&self, keypair: &KeyPair) -> (r: bool)
        ensures
            r == pattern_matches(self@, comparable_string_of(keypair@.public)),
    {
        let base64_part = keypair.public_key_string_base64_part();
        self.matches_string(base64_part.as_str())
    }

    /// The pattern's text: the suffix itself, or the regular expression's source.
    pub fn text(&self) -> (r: &str)
        ensures
            r@ == pattern_text(self@),
    {
        match self {
            Pattern::Suffix(s) => s.as_str(),
            Pattern::Regex(re) => regex_source(re),
        }
    }
}

/// The text a pattern displays and sorts by: suffix text or regex source.
pub open spec fn pattern_text(p: PatternView) -> Seq<char> {
    match p {
        PatternView::Suffix(s) => s,
        PatternView::Regex(src) => src,
    }
}

fn regex_source(re: &CompiledRegex) -> (r: &str)
    ensures
        r@ == re@,
{
    re.source.as_str()
}

impl Clone for Pattern {
    /// A pattern with the same rule and text.
    fn clone(&self) -> (r: Self)
        ensures
            r@ == self@,
    {
        match self {
            Pattern::Suffix(s) => Pattern::Suffix(s.clone()),
            Pattern::Regex(re) => Pattern::Regex(re.clone()),
        }
    }
}

impl PartialEq for Pattern {
    /// Patterns are equal when they have the same rule and the same text.
    fn eq(&self, other: &Self) -> (r: bool) {
        match (self, other) {
            (Pattern::Suffix(s1), Pattern::Suffix(s2)) => s1.eq(s2),
            (Pattern::Regex(r1), Pattern::Regex(r2)) => r1.source.eq(&r2.source),
            _ => false,
        }
    }
}

impl vstd::std_specs::cmp::PartialEqSpecImpl for Pattern {
    open spec fn obeys_eq_spec() -> bool {
        true
    }

    open spec fn eq_spec(&self, other: &Pattern) -> bool {
        self@ == other@
    }
}

impl Eq for Pattern {

}

/// 64 raised to the `n`th power: the number of candidate strings for an
/// `n`-character tail over the 64-symbol base64 alphabet. The model treats
/// each character position of the encoded payload as uniform over that
/// alphabet, so the expected number of attempts for an `n`-character suffix
/// is exactly this.
pub open spec fn pow64(n: nat) -> int
    decreases n,
{
    if n == 0 {
        1
    } else {
        64 * pow64((n - 1) as nat)
    }
}

proof fn lemma_pow64_pos(n: nat)
    ensures
        pow64(n) >= 1,
    decreases n,
{
    if n > 0 {
        lemma_pow64_pos((n - 1) as nat);
    }
}

proof fn lemma_pow64_increases(n: nat, m: nat)
    requires
        n <= m,
    ensures
        pow64(n) <= pow64(m),
    decreases m,
{
    if n < m {
        lemma_pow64_increases(n, (m - 1) as nat);
        lemma_pow64_pos((m - 1) as nat);
    }
}

proof fn lemma_pow64_21_value()
    ensures
        pow64(21) == 0x40000000000000000000000000000000,
{
    reveal_with_fuel(pow64, 22);
}

/// `x` clamped from above to the largest `u128`.
pub open spec fn sat_u128(x: int) -> int {
    if x > u128::MAX {
        u128::MAX as int
    } else {
        x
    }
}

/// `x` clamped from above to the largest `u64`.
pub open spec fn sat_u64(x: int) -> int {
    if x > u64::MAX {
        u64::MAX as int
    } else {
        x
    }
}

/// 64^`n` as a `u128`, clamped to the representable range.
fn pow64_sat_u128(n: usize) -> (r: u128)
    ensures
        r as int == sat_u128(pow64(n as nat)),
{
    if n > 21 {
        proof {
            lemma_pow64_21_value();
            lemma_pow64_increases(22, n as nat);
        }
        u128::MAX
    } else {
        let mut acc: u128 = 1;
        let mut i: usize = 0;
        while i < n
            invariant
                0 <= i <= n <= 21,
                acc as int == pow64(i as nat),
            decreases n - i,
        {
            proof {
                lemma_pow64_increases((i + 1) as nat, 21);
                lemma_pow64_21_value();
            }
            acc = acc * 64;
            i = i + 1;
        }
        proof {
            lemma_pow64_increases(n as nat, 21);
            lemma_pow64_21_value();
        }
        acc
    }
}

/// A time estimate for a search: no closed form (regex patterns), beyond any
/// representable duration, or a number of seconds.
pub enum Eta {
    Unknown,
    Unbounded,
    Seconds(u64),
}

/// The expected search time for a pattern at `rate` generated keys per
/// second: the expected number of attempts, 64^(suffix length), divided by
/// the rate. Unknown for regex patterns; unbounded when the rate is zero or
/// the quotient exceeds the representable seconds.
pub open spec fn eta_spec(p: PatternView, rate: u64) -> Eta {
    match p {
        PatternView::Regex(_) => Eta::Unknown,
        PatternView::Suffix(s) => if rate == 0 {
            Eta::Unbounded
        } else if pow64(s.len()) / (rate as int) > u64::MAX {
            Eta::Unbounded
        } else {
            Eta::Seconds((pow64(s.len()) / (rate as int)) as u64)
        },
    }
}

impl Pattern {
    /// The expected number of attempts until a match, 64^(suffix length),
    /// clamped to the representable range; no closed-form estimate exists
    /// for regex patterns. The reciprocal of this count is the per-attempt
    /// match probability 64^-(suffix length).
    pub fn expected_attempts(&self) -> (r: Option<u128>)
        ensures
            match self@ {
                PatternView::Suffix(s) => r matches Some(e) && e as int == sat_u128(pow64(s.len())),
                PatternView::Regex(_) => r is None,
            },
    {
        match self {
            Pattern::Suffix(suffix) => Some(pow64_sat_u128(suffix.as_str().unicode_len())),
            Pattern::Regex(_) => None,
        }
    }

    /// The expected search time at `rate` keys per second.
    pub fn eta(&self, rate: u64) -> (r: Eta)
        ensures
            r == eta_spec(self@, rate),
    {
        match self {
            Pattern::Regex(_) => Eta::Unknown,
            Pattern::Suffix(suffix) => {
                if rate == 0 {
                    return Eta::Unbounded;
                }
                let n: usize = suffix.as_str().unicode_len();
                if n > 21 {
                    proof {
                        lemma_pow64_21_value();
                        lemma_pow64_increases(22, n as nat);
                        let e = pow64(n as nat);
                        let m = u64::MAX as int;
                        vstd::arithmetic::mul::lemma_mul_inequality(rate as int, m, m + 1);
                        vstd::arithmetic::div_mod::lemma_div_by_multiple(m + 1, rate as int);
                        vstd::arithmetic::div_mod::lemma_div_is_ordered(
                            (m + 1) * (rate as int),
                            e,
                            rate as int,
                        );
                        assert((m + 1) * (rate as int) == (rate as int) * (m + 1)) by (nonlinear_arith);
                        assert(e / (rate as int) >= m + 1);
                    }
                    Eta::Unbounded
                } else {
                    proof {
                        lemma_pow64_increases(n as nat, 21);
                        lemma_pow64_21_value();
                    }
                    let expected: u128 = pow64_sat_u128(n);
                    let secs: u128 = expected / (rate as u128);
                    if secs > u64::MAX as u128 {
                        Eta::Unbounded
                    } else {
                        Eta::Seconds(secs as u64)
                    }
                }
            },
        }
    }
}

/// Names the rendering humantime gives a whole number of seconds; a function
/// of the duration alone.
pub uninterp spec fn human_duration(secs: u64) -> Seq<char>;

/// Relies on humantime::format_duration: the human-readable rendering of a
/// whole number of seconds.
#[verifier::external_body]
fn format_duration_secs(secs: u64) -> (r: String)
    ensures
        r@ == human_duration(secs),
{
    humantime::format_duration(std::time::Duration::from_secs(secs)).to_string()
}

/// Relies on std's SystemTime::now: the wall clock's seconds since the Unix
/// epoch (zero if the clock stands before it); nothing is promised of the
/// value.
#[verifier::external_body]
fn unix_timestamp_secs() -> (r: u64)
{
    std::time::SystemTime::now().duration_since(std::time::UNIX_EPOCH).map(|d| d.as_secs())
        .unwrap_or(0)
}

/// The text that `estimate_time` yields for a suffix pattern's estimate.
pub open spec fn eta_text(e: Eta) -> Seq<char> {
    match e {
        Eta::Unknown => Seq::<char>::empty(),
        Eta::Unbounded => "∞"@,
        Eta::Seconds(s) => human_duration(s),
    }
}

/// `s` truncated to its first 20 characters.
pub open spec fn prefix20(s: Seq<char>) -> Seq<char> {
    if s.len() <= 20 {
        s
    } else {
        s.subrange(0, 20)
    }
}

/// `s` with every character that is not alphanumeric replaced by `_`.
pub open spec fn alnum_sanitized(s: Seq<char>) -> Seq<char> {
    s.map_values(|c: char| if unicode_alphanumeric(c) { c } else { '_' })
}

/// The filesystem label derived from a pattern at a given Unix timestamp:
/// the suffix text itself, or the regex source truncated to 20 characters
/// and sanitized under a `regex_` marker, each followed by the timestamp.
pub open spec fn filename_label(p: PatternView, ts: u64) -> Seq<char> {
    match p {
        PatternView::Suffix(s) => s + seq!['_'] + dec_str(ts as nat),
        PatternView::Regex(src) => "regex_"@ + alnum_sanitized(prefix20(src)) + seq!['_']
            + dec_str(ts as nat),
    }
}

impl Pattern {
    /// The expected time until a match at `keys_per_second`, rendered for
    /// display: a human-readable duration, or `∞` when it exceeds every
    /// representable duration. No estimate exists for regex patterns.
    pub fn estimate_time(&self, keys_per_second: u64) -> (r: Option<String>)
        ensures
            r is None <==> self@ is Regex,
            self@ is Suffix ==> (r matches Some(t) && t@ == eta_text(
                eta_spec(self@, keys_per_second),
            )),
    {
        match self {
            Pattern::Regex(_) => None,
            Pattern::Suffix(_) => match self.eta(keys_per_second) {
                Eta::Unknown => {
                    proof {
                        assert(false);
                    }
                    None
                },
                Eta::Unbounded => Some("∞".to_owned()),
                Eta::Seconds(s) => Some(format_duration_secs(s)),
            },
        }
    }

    /// The filesystem label this pattern yields at the given timestamp.
    pub fn filename_for_timestamp(&self, timestamp: u64) -> (r: String)
        ensures
            r@ == filename_label(self@, timestamp),
    {
        match self {
            Pattern::Suffix(suffix) => {
                let mut out = suffix.clone();
                push_char(&mut out, '_');
                let ts = dec_string(timestamp);
                out.append(ts.as_str());
                assert(out@ =~= filename_label(self@, timestamp));
                out
            },
            Pattern::Regex(re) => {
                let source = regex_source(re);
                let len: usize = source.unicode_len();
                let take: usize = if len <= 20 {
                    len
                } else {
                    20
                };
                assert(source@.subrange(0, take as int) =~= prefix20(re@));
                let mut out = "regex_".to_owned();
                let mut i: usize = 0;
                while i < take
                    invariant
                        0 <= i <= take <= source@.len(),
                        out@ == "regex_"@ + alnum_sanitized(source@.subrange(0, i as int)),
                    decreases take - i,
                {
                    let c = source.get_char(i);
                    if char_is_alphanumeric(c) {
                        push_char(&mut out, c);
                    } else {
                        push_char(&mut out, '_');
                    }
                    assert(out@ =~= "regex_"@ + alnum_sanitized(source@.subrange(0, i + 1)));
                    i = i + 1;
                }
                push_char(&mut out, '_');
                let ts = dec_string(timestamp);
                out.append(ts.as_str());
                assert(out@ =~= filename_label(self@, timestamp));
                out
            },
        }
    }

    /// A collision-resistant, filesystem-safe label for this pattern at the
    /// current instant: deterministic given the pattern and the timestamp.
    pub fn to_filename(&self) -> (r: String)
        ensures
            exists|ts: u64| r@ == filename_label(self@, ts),
    {
        let timestamp = unix_timestamp_secs();
        let r = self.filename_for_timestamp(timestamp);
        proof {
            assert(r@ == filename_label(self@, timestamp));
        }
        r
    }

    /// The pattern rendered for display: its rule name and its text.
    pub fn description(&self) -> (r: String)
        ensures
            r@ == description_text(self@),
    {
        match self {
            Pattern::Suffix(s) => {
                let mut out = "Suffix: ".to_owned();
                out.append(s.as_str());
                out
            },
            Pattern::Regex(re) => {
                let mut out = "Regex: ".to_owned();
                out.append(regex_source(re));
                out
            },
        }
    }
}

/// The display rendering of a pattern: its rule name and its text.
pub open spec fn description_text(p: PatternView) -> Seq<char> {
    match p {
        PatternView::Suffix(s) => "Suffix: "@ + s,
        PatternView::Regex(src) => "Regex: "@ + src,
    }
}

/// Whether a raw public key's comparable string satisfies the pattern.
pub fn public_key_matches_pattern(public_key: &Vec<u8>, pattern: &Pattern) -> (r: bool)
    requires
        public_key@.len() == 32,
    ensures
        r == pattern_matches(pattern@, comparable_string_of(public_key@)),
{
    let base64_part = crate::keypair::comparable_string_from_public(public_key);
    pattern.matches_string(base64_part.as_str())
}

} // verus!
