//! Whitespace trimming, shared by the keyword list, the stored model choice
//! and transcript normalization.

use vstd::prelude::*;

verus! {

/// A text without its leading and trailing whitespace, as `str::trim` gives it.
pub uninterp spec fn trimmed(s: Seq<char>) -> Seq<char>;

/// Relies on `str::trim`: removes leading and trailing whitespace.
#[verifier::external_body]
pub(crate) fn trim_text(s: &str) -> (r: String)
    ensures
        r@ == trimmed(s@),
{
    s.trim().to_string()
}

/// The model identifier held in the stored selection `content`: its text
/// trimmed, or `None` when nothing but whitespace is stored.
pub fn selected_model_id(content: &str) -> (r: Option<String>)
    ensures
        r is None <==> trimmed(content@).len() == 0,
        r matches Some(id) ==> id@ == trimmed(content@),
{
    let id = trim_text(content);
    non_empty(id)
}

/// `Some(s)` unless `s` is empty.
pub fn non_empty(s: String) -> (r: Option<String>)
    ensures
        r is None <==> s@.len() == 0,
        r matches Some(t) ==> t@ == s@,
{
    if s.as_str().unicode_len() == 0 { None } else { Some(s) }
}

} // verus!
