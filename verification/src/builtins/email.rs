//! Email built-ins.
use vstd::prelude::*;
use crate::builtins::string::has_match;
use crate::builtins::string::regex_compiles;
use crate::builtins::string::regex_is_match;
use crate::builtins::string::search;
use crate::traits::Validator;

verus! {

/// The regular expression that an email address has to match somewhere.
pub const EMAIL_PATTERN: &'static str =
    r#"(?:[a-z0-9!#$%&'*+/=?^_`{|}~-]+(?:\.[a-z0-9!#$%&'*+/=?^_`{|}~-]+)*|"(?:[\x01-\x08\x0b\x0c\x0e-\x1f\x21\x23-\x5b\x5d-\x7f]|\\[\x01-\x09\x0b\x0c\x0e-\x7f])*")@(?:(?:[a-z0-9](?:[a-z0-9-]*[a-z0-9])?\.)+[a-z0-9](?:[a-z0-9-]*[a-z0-9])?|\[(?:(?:(2(5[0-5]|[0-4][0-9])|1[0-9][0-9]|[1-9]?[0-9]))\.){3}(?:(2(5[0-5]|[0-4][0-9])|1[0-9][0-9]|[1-9]?[0-9])|[a-z0-9-]*[a-z0-9]:(?:[\x01-\x08\x0b\x0c\x0e-\x1f\x21-\x5a\x53-\x7f]|\\[\x01-\x09\x0b\x0c\x0e-\x7f])+)\])"#;

/// Whether `text` holds an email address.
pub open spec fn is_email(text: Seq<char>) -> bool {
    regex_compiles(EMAIL_PATTERN@) && regex_is_match(EMAIL_PATTERN@, text)
}

/// [`Validator`] checks if valid email.
pub struct email;

impl Validator<String> for email {
    open spec fn usable(&self) -> bool {
        true
    }

    open spec fn accepts(&self, target: String) -> bool {
        is_email(target@)
    }

    fn validate(&self, target: &String) -> (valid: bool) {
        has_match(search(EMAIL_PATTERN, target.as_str()))
    }
}

} // verus!
