//! The calls this library makes into other crates and into std functions
//! that vstd does not specify. Every item here is believed, not proved:
//! each doc comment says what its contract claims of the code it calls.
use vstd::prelude::*;

verus! {

/// `serde_json::Value`, carried through results as an opaque payload.
#[verifier::external_type_specification]
#[verifier::external_body]
pub struct ExJsonValue(serde_json::Value);

/// Reads the wall clock through `chrono::Utc::now()` and returns its
/// `timestamp_millis()`. The value depends on the machine's clock, so
/// nothing is claimed of it beyond what holds of every outcome: chrono
/// panics rather than return a time before the Unix epoch, so the result
/// is never negative.
#[verifier::external_body]
pub(crate) fn now_millis() -> (t: i64)
    ensures
        t >= 0,
{
    chrono::Utc::now().timestamp_millis()
}

/// Draws a random identifier with `uuid::Uuid::new_v4()` and returns it
/// as its 128-bit value (`Uuid::as_u128`). The value is random, so the
/// contract says nothing of it.
#[verifier::external_body]
pub(crate) fn random_id() -> (id: u128) {
    uuid::Uuid::new_v4().as_u128()
}

/// Draws a random identifier with `uuid::Uuid::new_v4()` and renders it
/// with `to_string()`. The value is random, so the contract says nothing
/// of it.
#[verifier::external_body]
pub(crate) fn random_id_text() -> (s: String) {
    uuid::Uuid::new_v4().to_string()
}

/// What `regex::Regex::new(pattern)` followed by `is_match(text)` gives:
/// `None` when the pattern does not compile, otherwise whether the
/// regular expression matches somewhere in `text`.
pub uninterp spec fn spec_regex_search(pattern: Seq<char>, text: Seq<char>) -> Option<bool>;

/// Compiles `pattern` with `regex::Regex::new` and, when that succeeds,
/// searches `text` with `Regex::is_match`. The contract claims only that
/// the result is a function of the two strings, named
/// `spec_regex_search`; the regex crate's matching semantics are not
/// restated.
#[verifier::external_body]
pub(crate) fn regex_search(pattern: &str, text: &str) -> (r: Option<bool>)
    ensures
        r == spec_regex_search(pattern@, text@),
{
    match regex::Regex::new(pattern) {
        Ok(re) => Some(re.is_match(text)),
        Err(_) => None,
    }
}

/// What `std::path::Path::new(path).parent()` gives, as text.
pub uninterp spec fn spec_path_parent(path: Seq<char>) -> Option<Seq<char>>;

/// Calls `std::path::Path::parent` on `path` and converts the parent (a
/// path built from UTF-8 text, so `to_str` succeeds) back to a `String`.
/// The contract claims only that the result is a function of `path`,
/// named `spec_path_parent`.
#[verifier::external_body]
pub(crate) fn path_parent(path: &str) -> (r: Option<String>)
    ensures
        match r {
            Some(p) => spec_path_parent(path@) == Some(p@),
            None => spec_path_parent(path@) is None,
        },
{
    std::path::Path::new(path).parent().and_then(|p| p.to_str()).map(|p| p.to_string())
}

} // verus!
