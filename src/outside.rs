//! The library's trusted boundary: calls into serde_yaml and into std text
//! routines that vstd does not specify. Each result is given a name that
//! depends on the argument alone.

use vstd::prelude::*;

verus! {

/// What parsing `s` as one YAML document yields: `None` when it parses,
/// otherwise the parser's message.
pub uninterp spec fn yaml_error(s: Seq<char>) -> Option<Seq<char>>;

/// `s` with leading and trailing Unicode white space removed.
pub uninterp spec fn trimmed(s: Seq<char>) -> Seq<char>;

/// The Unicode lowercase mapping of `s`.
pub uninterp spec fn lower_of(s: Seq<char>) -> Seq<char>;

/// Relies on serde_yaml::from_str into serde_yaml::Value: whether the text
/// is one well-formed YAML document, and the parser's message otherwise.
#[verifier::external_body]
pub(crate) fn yaml_check(s: &str) -> (r: Option<String>)
    ensures
        r is None <==> yaml_error(s@) is None,
        r matches Some(m) ==> yaml_error(s@) == Some(m@),
{
    match serde_yaml::from_str::<serde_yaml::Value>(s) {
        Ok(_) => None,
        Err(e) => Some(e.to_string()),
    }
}

/// Relies on str::trim: the slice without leading and trailing white space.
#[verifier::external_body]
pub(crate) fn trim_text(s: &str) -> (r: &str)
    ensures
        r@ == trimmed(s@),
{
    s.trim()
}

/// Relies on str::to_lowercase: the lowercase mapping of every character.
#[verifier::external_body]
pub(crate) fn lowercase(s: &str) -> (r: String)
    ensures
        r@ == lower_of(s@),
{
    s.to_lowercase()
}

} // verus!
