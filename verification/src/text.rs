//! Verified text helpers: decimal rendering, digit grouping, whitespace
//! tokenization, suffix tests and filesystem-safe sanitization.

use vstd::prelude::*;

verus! {

/// The character for a single decimal digit value.
pub open spec fn digit_char(d: int) -> char {
    ((48 + d) as u8) as char
}

/// The decimal rendering of a natural number, most significant digit first.
pub open spec fn dec_str(n: nat) -> Seq<char>
    decreases n,
{
    if n < 10 {
        seq![digit_char(n as int)]
    } else {
        dec_str(n / 10).push(digit_char((n % 10) as int))
    }
}

/// Relies on std's String::push: appends one character.
#[verifier::external_body]
pub fn push_char(s: &mut String, c: char)
    ensures
        final(s)@ == old(s)@.push(c),
{
    s.push(c);
}

/// Renders `n` in decimal.
pub fn dec_string(n: u64) -> (r: String)
    ensures
        r@ == dec_str(n as nat),
    decreases n,
{
    if n < 10 {
        let mut s = String::new();
        push_char(&mut s, (48 + n as u8) as char);
        assert(s@ =~= dec_str(n as nat));
        s
    } else {
        let mut s = dec_string(n / 10);
        push_char(&mut s, (48 + (n % 10) as u8) as char);
        assert(s@ =~= dec_str(n as nat));
        s
    }
}

/// Digits grouped in threes from the right by commas, as the `en` locale
/// renders integers.
pub open spec fn grouped3(s: Seq<char>) -> Seq<char>
    decreases s.len(),
{
    if s.len() <= 3 {
        s
    } else {
        grouped3(s.subrange(0, s.len() - 3)) + seq![','] + s.subrange(s.len() - 3, s.len() as int)
    }
}

/// Relies on num_format's ToFormattedString with the `en` locale: the decimal
/// digits of `n` grouped in threes from the right by `,` separators.
#[verifier::external_body]
pub fn format_grouped(n: u64) -> (r: String)
    ensures
        r@ == grouped3(dec_str(n as nat)),
{
    num_format::ToFormattedString::to_formatted_string(&n, &num_format::Locale::en)
}

/// Names the result of std's char::is_whitespace: whether a character has the
/// Unicode White_Space property.
pub uninterp spec fn unicode_whitespace(c: char) -> bool;

/// Relies on std's char::is_whitespace: the result depends on the character alone.
#[verifier::external_body]
pub fn char_is_whitespace(c: char) -> (r: bool)
    ensures
        r == unicode_whitespace(c),
{
    c.is_whitespace()
}

/// Names the result of std's char::is_alphanumeric: whether a character is in
/// one of the Unicode Alphabetic or Number categories.
pub uninterp spec fn unicode_alphanumeric(c: char) -> bool;

/// Relies on std's char::is_alphanumeric: the result depends on the character alone.
#[verifier::external_body]
pub fn char_is_alphanumeric(c: char) -> (r: bool)
    ensures
        r == unicode_alphanumeric(c),
{
    c.is_alphanumeric()
}

/// The first position at or after `i` that does not hold whitespace (or the end).
pub open spec fn skip_ws(s: Seq<char>, i: nat) -> nat
    decreases s.len() - i,
{
    if i >= s.len() {
        s.len()
    } else if unicode_whitespace(s[i as int]) {
        skip_ws(s, i + 1)
    } else {
        i
    }
}

/// The first position at or after `i` that holds whitespace (or the end).
pub open spec fn skip_token(s: Seq<char>, i: nat) -> nat
    decreases s.len() - i,
{
    if i >= s.len() {
        s.len()
    } else if !unicode_whitespace(s[i as int]) {
        skip_token(s, i + 1)
    } else {
        i
    }
}

proof fn lemma_skip_ws_bounds(s: Seq<char>, i: nat)
    requires
        i <= s.len(),
    ensures
        i <= skip_ws(s, i) <= s.len(),
        i <= skip_token(s, i) <= s.len(),
    decreases s.len() - i,
{
    if i < s.len() {
        lemma_skip_ws_bounds(s, i + 1);
    }
}

fn skip_ws_exec(s: &str, i: usize) -> (r: usize)
    requires
        i <= s@.len(),
    ensures
        r == skip_ws(s@, i as nat),
        i <= r <= s@.len(),
{
    let n: usize = s.unicode_len();
    let mut j: usize = i;
    while j < n && char_is_whitespace(s.get_char(j))
        invariant
            i <= j <= n,
            n == s@.len(),
            skip_ws(s@, i as nat) == skip_ws(s@, j as nat),
        decreases n - j,
    {
        j = j + 1;
    }
    proof {
        lemma_skip_ws_bounds(s@, i as nat);
    }
    j
}

fn skip_token_exec(s: &str, i: usize) -> (r: usize)
    requires
        i <= s@.len(),
    ensures
        r == skip_token(s@, i as nat),
        i <= r <= s@.len(),
{
    let n: usize = s.unicode_len();
    let mut j: usize = i;
    while j < n && !char_is_whitespace(s.get_char(j))
        invariant
            i <= j <= n,
            n == s@.len(),
            skip_token(s@, i as nat) == skip_token(s@, j as nat),
        decreases n - j,
    {
        j = j + 1;
    }
    proof {
        lemma_skip_ws_bounds(s@, i as nat);
    }
    j
}

/// The second whitespace-delimited token of `s` (empty if there is none).
pub open spec fn second_token(s: Seq<char>) -> Seq<char> {
    let b = skip_token(s, skip_ws(s, 0));
    let c = skip_ws(s, b);
    s.subrange(c as int, skip_token(s, c) as int)
}

/// Extracts the second whitespace-delimited token of a one-line OpenSSH public
/// key rendering, which is its base64 payload; the empty string if the line
/// has fewer than two tokens.
pub fn extract_base64_from_openssh_string(openssh_string: &str) -> (r: &str)
    ensures
        r@ == second_token(openssh_string@),
{
    let a = skip_ws_exec(openssh_string, 0);
    let b = skip_token_exec(openssh_string, a);
    let c = skip_ws_exec(openssh_string, b);
    let d = skip_token_exec(openssh_string, c);
    openssh_string.substring_char(c, d)
}

/// The first two whitespace-delimited tokens of `s`, joined by one space.
pub open spec fn first_two_tokens(s: Seq<char>) -> Seq<char> {
    let a = skip_ws(s, 0);
    let b = skip_token(s, a);
    let c = skip_ws(s, b);
    let d = skip_token(s, c);
    if b == a {
        Seq::<char>::empty()
    } else if d == c {
        s.subrange(a as int, b as int)
    } else {
        s.subrange(a as int, b as int) + seq![' '] + s.subrange(c as int, d as int)
    }
}

/// Joins the first two whitespace-delimited tokens of `s` with one space:
/// the abbreviation used for time estimates in progress lines.
pub fn abbreviate_two_tokens(s: &str) -> (r: String)
    ensures
        r@ == first_two_tokens(s@),
{
    let a = skip_ws_exec(s, 0);
    let b = skip_token_exec(s, a);
    let c = skip_ws_exec(s, b);
    let d = skip_token_exec(s, c);
    if b == a {
        let r = String::new();
        assert(r@ =~= first_two_tokens(s@));
        r
    } else if d == c {
        let r = s.substring_char(a, b).to_owned();
        assert(r@ =~= first_two_tokens(s@));
        r
    } else {
        let mut r = s.substring_char(a, b).to_owned();
        push_char(&mut r, ' ');
        r.append(s.substring_char(c, d));
        assert(r@ =~= first_two_tokens(s@));
        r
    }
}

/// Whether `text` ends with `suffix`, character for character.
pub open spec fn suffix_matches(text: Seq<char>, suffix: Seq<char>) -> bool {
    text.len() >= suffix.len() && text.subrange(
        text.len() - suffix.len(),
        text.len() as int,
    ) == suffix
}

/// Whether `text` ends with `suffix` (case-sensitive, exact).
pub fn string_ends_with(text: &str, suffix: &str) -> (r: bool)
    ensures
        r == suffix_matches(text@, suffix@),
{
    let n: usize = text.unicode_len();
    let m: usize = suffix.unicode_len();
    if m > n {
        return false;
    }
    let mut i: usize = 0;
    while i < m
        invariant
            0 <= i <= m <= n,
            n == text@.len(),
            m == suffix@.len(),
            forall|k: int| 0 <= k < i ==> text@[n - m + k] == suffix@[k],
        decreases m - i,
    {
        if text.get_char(n - m + i) != suffix.get_char(i) {
            assert(text@.subrange(n - m, n as int)[i as int] != suffix@[i as int]);
            return false;
        }
        i = i + 1;
    }
    assert(text@.subrange(n - m, n as int) =~= suffix@);
    true
}

/// Whether a character may stand in a file name unchanged: ASCII alphanumeric,
/// underscore or hyphen.
pub open spec fn fs_safe_char(c: char) -> bool {
    (48 <= c as u32 && c as u32 <= 57) || (65 <= c as u32 && c as u32 <= 90) || (97 <= c as u32
        && c as u32 <= 122) || c == '_' || c == '-'
}

/// `s` with every character that is not filesystem-safe replaced by `_`.
pub open spec fn fs_sanitized(s: Seq<char>) -> Seq<char> {
    s.map_values(|c: char| if fs_safe_char(c) { c } else { '_' })
}

/// Replaces every character that is not ASCII alphanumeric, `_` or `-` by `_`,
/// so the result can serve as a file name.
pub fn make_suffix_filesystem_safe(suffix: &str) -> (r: String)
    ensures
        r@ == fs_sanitized(suffix@),
{
    let n: usize = suffix.unicode_len();
    let mut out = String::new();
    let mut i: usize = 0;
    while i < n
        invariant
            0 <= i <= n,
            n == suffix@.len(),
            out@ == fs_sanitized(suffix@.subrange(0, i as int)),
        decreases n - i,
    {
        let c = suffix.get_char(i);
        let keep: bool = (c as u32 >= 48 && c as u32 <= 57) || (c as u32 >= 65 && c as u32 <= 90)
            || (c as u32 >= 97 && c as u32 <= 122) || c == '_' || c == '-';
        if keep {
            push_char(&mut out, c);
        } else {
            push_char(&mut out, '_');
        }
        assert(out@ =~= fs_sanitized(suffix@.subrange(0, i + 1)));
        i = i + 1;
    }
    assert(suffix@.subrange(0, n as int) =~= suffix@);
    out
}

} // verus!
