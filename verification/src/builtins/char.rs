//! Character built-ins.
use vstd::prelude::*;
use crate::traits::Validator;

verus! {

/// Whether `c` has the Unicode property `Alphabetic`, as `char::is_alphabetic` reports it.
pub uninterp spec fn char_is_alphabetic(c: char) -> bool;

/// Whether `c` is alphabetic or numeric, as `char::is_alphanumeric` reports it.
pub uninterp spec fn char_is_alphanumeric(c: char) -> bool;

/// Whether `c` has the Unicode property `Lowercase`, as `char::is_lowercase` reports it.
pub uninterp spec fn char_is_lowercase(c: char) -> bool;

/// Whether `c` has the Unicode property `Uppercase`, as `char::is_uppercase` reports it.
pub uninterp spec fn char_is_uppercase(c: char) -> bool;

/// Whether `c` is within the ASCII range.
pub open spec fn char_is_ascii(c: char) -> bool {
    (c as u32) < 128
}

/// `char::is_alphabetic` of std, which goes by the Unicode property
/// `Alphabetic`: its answer depends on the character alone.
#[verifier::external_body]
pub(crate) fn is_alphabetic(c: char) -> (answer: bool)
    ensures
        answer == char_is_alphabetic(c),
{
    c.is_alphabetic()
}

/// `char::is_alphanumeric` of std, true of what is alphabetic or numeric: its
/// answer depends on the character alone.
#[verifier::external_body]
pub(crate) fn is_alphanumeric(c: char) -> (answer: bool)
    ensures
        answer == char_is_alphanumeric(c),
{
    c.is_alphanumeric()
}

/// `char::is_lowercase` of std, which goes by the Unicode property
/// `Lowercase`: its answer depends on the character alone.
#[verifier::external_body]
pub(crate) fn is_lowercase(c: char) -> (answer: bool)
    ensures
        answer == char_is_lowercase(c),
{
    c.is_lowercase()
}

/// `char::is_uppercase` of std, which goes by the Unicode property
/// `Uppercase`: its answer depends on the character alone.
#[verifier::external_body]
pub(crate) fn is_uppercase(c: char) -> (answer: bool)
    ensures
        answer == char_is_uppercase(c),
{
    c.is_uppercase()
}

/// [`Validator`] checks if alphabetic.
pub struct alphabetic;

impl Validator<char> for alphabetic {
    open spec fn usable(&self) -> bool {
        true
    }

    open spec fn accepts(&self, target: char) -> bool {
        char_is_alphabetic(target)
    }

    fn validate(&self, target: &char) -> (valid: bool) {
        is_alphabetic(*target)
    }
}

/// [`Validator`] checks if alphanumeric.
pub struct alphanumeric;

impl Validator<char> for alphanumeric {
    open spec fn usable(&self) -> bool {
        true
    }

    open spec fn accepts(&self, target: char) -> bool {
        char_is_alphanumeric(target)
    }

    fn validate(&self, target: &char) -> (valid: bool) {
        is_alphanumeric(*target)
    }
}

/// [`Validator`] checks if ASCII.
pub struct ascii;

impl Validator<char> for ascii {
    open spec fn usable(&self) -> bool {
        true
    }

    open spec fn accepts(&self, target: char) -> bool {
        char_is_ascii(target)
    }

    fn validate(&self, target: &char) -> (valid: bool) {
        (*target as u32) < 128
    }
}

/// [`Validator`] checks if lowercase.
pub struct lowercase;

impl Validator<char> for lowercase {
    open spec fn usable(&self) -> bool {
        true
    }

    open spec fn accepts(&self, target: char) -> bool {
        char_is_lowercase(target)
    }

    fn validate(&self, target: &char) -> (valid: bool) {
        is_lowercase(*target)
    }
}

/// [`Validator`] checks if uppercase.
pub struct uppercase;

impl Validator<char> for uppercase {
    open spec fn usable(&self) -> bool {
        true
    }

    open spec fn accepts(&self, target: char) -> bool {
        char_is_uppercase(target)
    }

    fn validate(&self, target: &char) -> (valid: bool) {
        is_uppercase(*target)
    }
}

} // verus!
