//! Text normalisation for addresses and hex payloads.
//!
//! Addresses reach the toolkit in several dresses: padded with whitespace,
//! wrapped in double quotes, prefixed with `0x`. Everything that looks an
//! address up or sends it to the node first brings it to the bare form.

use crate::hexcodec::is_hex_text;
use vstd::prelude::*;

verus! {

/// The code points that carry the Unicode `White_Space` property.
pub open spec fn is_whitespace(c: char) -> bool {
    let n = c as u32;
    ||| 0x09 <= n <= 0x0d
    ||| n == 0x20
    ||| n == 0x85
    ||| n == 0xa0
    ||| n == 0x1680
    ||| 0x2000 <= n <= 0x200a
    ||| n == 0x2028
    ||| n == 0x2029
    ||| n == 0x202f
    ||| n == 0x205f
    ||| n == 0x3000
}

/// `s` without its longest prefix of characters that satisfy `strip`.
pub open spec fn trim_start_by(s: Seq<char>, strip: spec_fn(char) -> bool) -> Seq<char>
    decreases s.len(),
{
    if s.len() > 0 && strip(s[0]) {
        trim_start_by(s.drop_first(), strip)
    } else {
        s
    }
}

/// `s` without its longest suffix of characters that satisfy `strip`.
pub open spec fn trim_end_by(s: Seq<char>, strip: spec_fn(char) -> bool) -> Seq<char>
    decreases s.len(),
{
    if s.len() > 0 && strip(s.last()) {
        trim_end_by(s.drop_last(), strip)
    } else {
        s
    }
}

/// `s` with matching characters removed from both ends.
pub open spec fn trim_by(s: Seq<char>, strip: spec_fn(char) -> bool) -> Seq<char> {
    trim_end_by(trim_start_by(s, strip), strip)
}

/// The test for whitespace, as a value.
pub open spec fn whitespace() -> spec_fn(char) -> bool {
    |c: char| is_whitespace(c)
}

/// The test for being the character `pattern`, as a value.
pub open spec fn only(pattern: char) -> spec_fn(char) -> bool {
    |c: char| c == pattern
}

/// `s` without surrounding whitespace.
pub open spec fn trim_whitespace(s: Seq<char>) -> Seq<char> {
    trim_by(s, whitespace())
}

/// `s` without the occurrences of `pattern` at its two ends.
pub open spec fn trim_char(s: Seq<char>, pattern: char) -> Seq<char> {
    trim_by(s, only(pattern))
}

/// The rest of `s` behind `prefix`, if `s` starts with it.
pub open spec fn strip_prefix(s: Seq<char>, prefix: Seq<char>) -> Option<Seq<char>> {
    if prefix.is_prefix_of(s) {
        Some(s.skip(prefix.len() as int))
    } else {
        None
    }
}

/// The two characters `0x`.
pub open spec fn hex_prefix() -> Seq<char> {
    seq!['0', 'x']
}

/// The bare form of an address: surrounding whitespace removed, then
/// surrounding double quotes, then one leading `0x`.
pub open spec fn normalize(s: Seq<char>) -> Seq<char> {
    let unquoted = trim_char(trim_whitespace(s), '"');
    match strip_prefix(unquoted, hex_prefix()) {
        Some(rest) => rest,
        None => unquoted,
    }
}

/// `str::trim`: the slice without leading and trailing whitespace, where
/// whitespace is the Unicode `White_Space` property. Trusted.
#[verifier::external_body]
fn str_trim<'a>(s: &'a str) -> (r: &'a str)
    ensures
        r@ == trim_whitespace(s@),
{
    s.trim()
}

/// `str::trim_matches` with a single character as the pattern: every leading
/// and every trailing occurrence of it is removed. Trusted.
#[verifier::external_body]
fn str_trim_matches<'a>(s: &'a str, pattern: char) -> (r: &'a str)
    ensures
        r@ == trim_char(s@, pattern),
{
    s.trim_matches(pattern)
}

/// `str::strip_prefix` with a string as the pattern: the remainder behind
/// the prefix, or `None` when the slice does not start with it. Trusted.
#[verifier::external_body]
fn str_strip_prefix<'a>(s: &'a str, prefix: &str) -> (r: Option<&'a str>)
    ensures
        r is Some == strip_prefix(s@, prefix@) is Some,
        r matches Some(rest) ==> Some(rest@) == strip_prefix(s@, prefix@),
{
    s.strip_prefix(prefix)
}

/// Brings an address or a hex payload to its bare form.
pub fn clean_address_string(address_to_clean: &str) -> (clean: String)
    ensures
        clean@ == normalize(address_to_clean@),
{
    let trimmed_address = str_trim_matches(str_trim(address_to_clean), '"');
    proof {
        reveal_strlit("0x");
        assert("0x"@ =~= hex_prefix());
    }
    let clean_address = match str_strip_prefix(trimmed_address, "0x") {
        Some(rest) => rest,
        None => trimmed_address,
    };
    clean_address.to_owned()
}

/// A hex literal: hex digits, with or without a leading `0x`.
pub open spec fn is_hex_literal(s: Seq<char>) -> bool {
    ||| is_hex_text(s)
    ||| (hex_prefix().is_prefix_of(s) && is_hex_text(s.skip(2)))
}

/// Trimming leaves alone a text whose two ends are not to be stripped.
pub proof fn lemma_trim_by_fixed(s: Seq<char>, strip: spec_fn(char) -> bool)
    requires
        s.len() > 0 ==> !strip(s[0]) && !strip(s.last()),
    ensures
        trim_by(s, strip) == s,
{
}

/// Hex digits alone are already in bare form.
pub proof fn lemma_normalize_hex_text(s: Seq<char>)
    requires
        is_hex_text(s),
    ensures
        normalize(s) == s,
{
    if s.len() > 0 {
        assert(crate::hexcodec::is_hex_digit(s[0]));
        assert(crate::hexcodec::is_hex_digit(s.last()));
    }
    lemma_trim_by_fixed(s, whitespace());
    lemma_trim_by_fixed(s, only('"'));
    if hex_prefix().is_prefix_of(s) {
        assert(s[1] == hex_prefix()[1]);
        assert(crate::hexcodec::is_hex_digit(s[1]));
    }
}

/// Normalising a hex literal strips its `0x`, if it has one.
pub proof fn lemma_normalize_hex_literal(s: Seq<char>)
    requires
        is_hex_literal(s),
    ensures
        is_hex_text(normalize(s)),
        normalize(s) == if is_hex_text(s) { s } else { s.skip(2) },
{
    if is_hex_text(s) {
        lemma_normalize_hex_text(s);
    } else {
        let digits = s.skip(2);
        assert(s[0] == hex_prefix()[0] && s[1] == hex_prefix()[1]);
        if digits.len() > 0 {
            assert(s.last() == digits.last());
            assert(crate::hexcodec::is_hex_digit(digits.last()));
        }
        lemma_trim_by_fixed(s, whitespace());
        lemma_trim_by_fixed(s, only('"'));
    }
}

/// Normalisation is idempotent on hex literals: a second pass changes
/// nothing.
pub proof fn lemma_normalize_idempotent(s: Seq<char>)
    requires
        is_hex_literal(s),
    ensures
        normalize(normalize(s)) == normalize(s),
{
    lemma_normalize_hex_literal(s);
    lemma_normalize_hex_text(normalize(s));
}

} // verus!
