//! URL built-ins.
use vstd::prelude::*;
use crate::traits::Validator;

verus! {

/// Whether `url::Url::parse` reads `text` as an absolute URL.
pub uninterp spec fn url_parses(text: Seq<char>) -> bool;

/// `url::Url::parse`: whether it returns a URL rather than an error, which
/// depends on the text alone.
#[verifier::external_body]
pub(crate) fn parses(text: &str) -> (parsed: bool)
    ensures
        parsed == url_parses(text@),
{
    ::url::Url::parse(text).is_ok()
}

/// [`Validator`] checks if valid URL.
pub struct url;

impl Validator<String> for url {
    open spec fn usable(&self) -> bool {
        true
    }

    open spec fn accepts(&self, target: String) -> bool {
        url_parses(target@)
    }

    fn validate(&self, target: &String) -> (valid: bool) {
        parses(target.as_str())
    }
}

} // verus!
