//! Searches in the bytes of a source text.

#![allow(unused_imports)]

use aho_corasick::AhoCorasick;
use regex::bytes::Regex;
use vstd::prelude::*;
use vstd::string::StringSliceAdditionalSpecFns;

verus! {

/// Whether `needle` stands in `haystack` at offset `at`.
pub open spec fn stands_at(needle: Seq<u8>, haystack: Seq<u8>, at: int) -> bool {
    0 <= at && at + needle.len() <= haystack.len() && haystack.subrange(at, at + needle.len())
        == needle
}

/// Whether `needle` stands somewhere in `haystack`.
pub open spec fn occurs_in(needle: Seq<u8>, haystack: Seq<u8>) -> bool {
    exists|at: int| stands_at(needle, haystack, at)
}

/// What a search for the regular expression `pattern` in `text` finds: whether
/// there is a match, or nothing where `pattern` cannot be compiled.
pub uninterp spec fn regex_search(pattern: Seq<char>, text: Seq<u8>) -> Option<bool>;

/// Searches `haystack` for `needle` with `AhoCorasick::new` of the crate
/// aho-corasick, given `needle` as its only pattern, and `AhoCorasick::is_match`.
/// The automaton is built with the crate's default settings, and `is_match` is
/// documented to return true if and only if the automaton matches the haystack
/// at any position: so the result is taken to say whether `needle` occurs in
/// `haystack`.
#[verifier::external_body]
pub(crate) fn contains(haystack: &[u8], needle: &[u8]) -> (found: bool)
    ensures
        found == occurs_in(needle@, haystack@),
{
    AhoCorasick::new([needle]).is_match(haystack)
}

/// Compiles `pattern` with `Regex::new` of the crate regex (its `bytes`
/// module) and searches `text` with `Regex::is_match`. Both depend on their
/// arguments alone; what they return is not stated here but given a name.
/// Nothing is returned where `pattern` does not compile.
#[verifier::external_body]
pub(crate) fn search(pattern: &str, text: &[u8]) -> (found: Option<bool>)
    ensures
        found == regex_search(pattern@, text@),
{
    match Regex::new(pattern) {
        Ok(regex) => Some(regex.is_match(text)),
        Err(_) => None,
    }
}

/// Whether `text` begins with `prefix`.
pub fn starts_with(text: &[u8], prefix: &[u8]) -> (begins: bool)
    ensures
        begins == prefix@.is_prefix_of(text@),
{
    if prefix.len() > text.len() {
        return false;
    }
    let mut i: usize = 0;
    while i < prefix.len()
        invariant
            0 <= i <= prefix.len() <= text.len(),
            forall|j: int| 0 <= j < i ==> text@[j] == prefix@[j],
        decreases prefix.len() - i,
    {
        if text[i] != prefix[i] {
            return false;
        }
        i += 1;
    }
    true
}

/// Whether two strings hold the same characters.
pub fn same_text(a: &str, b: &str) -> (same: bool)
    ensures
        same == (a@ == b@),
{
    let x = a.as_bytes();
    let y = b.as_bytes();
    proof {
        vstd::utf8::encode_utf8_decode_utf8(a@);
        vstd::utf8::encode_utf8_decode_utf8(b@);
    }
    if x.len() != y.len() {
        return false;
    }
    let mut i: usize = 0;
    while i < x.len()
        invariant
            0 <= i <= x.len(),
            x.len() == y.len(),
            x@ == a.spec_bytes(),
            y@ == b.spec_bytes(),
            forall|j: int| 0 <= j < i ==> x@[j] == y@[j],
        decreases x.len() - i,
    {
        if x[i] != y[i] {
            return false;
        }
        i += 1;
    }
    assert(x@ =~= y@);
    true
}

} // verus!
