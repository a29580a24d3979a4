//! String built-ins.
use vstd::prelude::*;
use vstd::string::StringExecFns;
use vstd::string::StrSliceExecFns;
use crate::builtins::char::char_is_alphabetic;
use crate::builtins::char::char_is_alphanumeric;
use crate::builtins::char::char_is_lowercase;
use crate::builtins::char::char_is_uppercase;
use crate::builtins::char::is_alphabetic;
use crate::builtins::char::is_alphanumeric;
use crate::builtins::char::is_lowercase;
use crate::builtins::char::is_uppercase;
use crate::traits::Sanitizer;
use crate::traits::Validator;

verus! {

/// Whether `c` has the Unicode property `White_Space`, as `char::is_whitespace` reports it.
pub uninterp spec fn char_is_whitespace(c: char) -> bool;

/// The lowercase form of `text`, as `str::to_lowercase` gives it.
pub uninterp spec fn lowercased(text: Seq<char>) -> Seq<char>;

/// The uppercase form of `text`, as `str::to_uppercase` gives it.
pub uninterp spec fn uppercased(text: Seq<char>) -> Seq<char>;

/// `text` without the whitespace it starts with.
pub open spec fn without_leading_space(text: Seq<char>) -> Seq<char>
    decreases text.len(),
{
    if text.len() > 0 && char_is_whitespace(text.first()) {
        without_leading_space(text.drop_first())
    } else {
        text
    }
}

/// `text` without the whitespace it ends with.
pub open spec fn without_trailing_space(text: Seq<char>) -> Seq<char>
    decreases text.len(),
{
    if text.len() > 0 && char_is_whitespace(text.last()) {
        without_trailing_space(text.drop_last())
    } else {
        text
    }
}

/// `text` without the whitespace around it.
pub open spec fn without_surrounding_space(text: Seq<char>) -> Seq<char> {
    without_trailing_space(without_leading_space(text))
}

/// What is left when leading whitespace is taken off does not start with whitespace.
pub proof fn lemma_leading_space_is_gone(text: Seq<char>)
    ensures
        without_leading_space(text).len() > 0 ==> !char_is_whitespace(
            without_leading_space(text).first(),
        ),
        without_leading_space(without_leading_space(text)) == without_leading_space(text),
    decreases text.len(),
{
    if text.len() > 0 && char_is_whitespace(text.first()) {
        lemma_leading_space_is_gone(text.drop_first());
    }
}

/// What is left when trailing whitespace is taken off is the beginning of the
/// text, and does not end with whitespace.
pub proof fn lemma_trailing_space_is_gone(text: Seq<char>)
    ensures
        without_trailing_space(text).is_prefix_of(text),
        without_trailing_space(text).len() > 0 ==> !char_is_whitespace(
            without_trailing_space(text).last(),
        ),
        without_trailing_space(without_trailing_space(text)) == without_trailing_space(text),
    decreases text.len(),
{
    if text.len() > 0 && char_is_whitespace(text.last()) {
        lemma_trailing_space_is_gone(text.drop_last());
    }
}

/// Trimming what has been trimmed changes nothing.
pub proof fn trimming_twice_is_trimming_once(text: Seq<char>)
    ensures
        without_surrounding_space(without_surrounding_space(text)) == without_surrounding_space(
            text,
        ),
{
    let left = without_leading_space(text);
    let both = without_trailing_space(left);
    lemma_leading_space_is_gone(text);
    lemma_trailing_space_is_gone(left);
    if both.len() > 0 {
        assert(both.first() == left.first());
    }
    assert(without_leading_space(both) == both);
}

/// `str::trim` of std: the slice that is left when leading and trailing
/// whitespace, as `char::is_whitespace` knows it, is taken off.
#[verifier::external_body]
pub(crate) fn trim_both(text: &str) -> (rest: &str)
    ensures
        rest@ == without_surrounding_space(text@),
        rest@.len() > 0 ==> !char_is_whitespace(rest@.first()) && !char_is_whitespace(
            rest@.last(),
        ),
{
    text.trim()
}

/// `str::trim_start` of std: the slice that is left when leading whitespace,
/// as `char::is_whitespace` knows it, is taken off.
#[verifier::external_body]
pub(crate) fn trim_start(text: &str) -> (rest: &str)
    ensures
        rest@ == without_leading_space(text@),
        rest@.len() > 0 ==> !char_is_whitespace(rest@.first()),
{
    text.trim_start()
}

/// `str::trim_end` of std: the slice that is left when trailing whitespace,
/// as `char::is_whitespace` knows it, is taken off.
#[verifier::external_body]
pub(crate) fn trim_end(text: &str) -> (rest: &str)
    ensures
        rest@ == without_trailing_space(text@),
        rest@.len() > 0 ==> !char_is_whitespace(rest@.last()),
{
    text.trim_end()
}

/// `str::to_lowercase` of std: the lowercase equivalent of the text as a new
/// string, which depends on the text alone.
#[verifier::external_body]
pub(crate) fn to_lowercase(text: &str) -> (lower: String)
    ensures
        lower@ == lowercased(text@),
{
    text.to_lowercase()
}

/// `str::to_uppercase` of std: the uppercase equivalent of the text as a new
/// string, which depends on the text alone.
#[verifier::external_body]
pub(crate) fn to_uppercase(text: &str) -> (upper: String)
    ensures
        upper@ == uppercased(text@),
{
    text.to_uppercase()
}

/// A property that a character has or lacks.
#[derive(Clone, Copy, PartialEq, Eq, Structural, Debug)]
pub enum CharClass {
    Alphabetic,
    Alphanumeric,
    Lowercase,
    Uppercase,
}

/// Whether `c` is of `class`.
pub open spec fn char_in(class: CharClass, c: char) -> bool {
    match class {
        CharClass::Alphabetic => char_is_alphabetic(c),
        CharClass::Alphanumeric => char_is_alphanumeric(c),
        CharClass::Lowercase => char_is_lowercase(c),
        CharClass::Uppercase => char_is_uppercase(c),
    }
}

/// Whether every character of `text` is of `class`.
pub open spec fn all_in(class: CharClass, text: Seq<char>) -> bool {
    forall|i: int| 0 <= i < text.len() ==> char_in(class, #[trigger] text[i])
}

/// Decides whether `c` is of `class`.
pub fn is_in(class: CharClass, c: char) -> (answer: bool)
    ensures
        answer == char_in(class, c),
{
    match class {
        CharClass::Alphabetic => is_alphabetic(c),
        CharClass::Alphanumeric => is_alphanumeric(c),
        CharClass::Lowercase => is_lowercase(c),
        CharClass::Uppercase => is_uppercase(c),
    }
}

/// Decides whether every character of `text` is of `class`.
pub fn every_char_is(class: CharClass, text: &str) -> (answer: bool)
    ensures
        answer == all_in(class, text@),
{
    for c in it: text.chars()
        invariant
            it.seq() == text@,
            forall|i: int| 0 <= i < it.index() ==> char_in(class, #[trigger] text@[i]),
    {
        if !is_in(class, c) {
            return false;
        }
    }
    true
}

/// [`Sanitizer`] trims whitespace.
pub struct trim;

impl Sanitizer<String> for trim {
    open spec fn usable(&self) -> bool {
        true
    }

    open spec fn sanitizes(&self, before: String, after: String) -> bool {
        after@ == without_surrounding_space(before@)
    }

    fn sanitize(&self, target: &mut String) {
        let rest = String::from_str(trim_both(target.as_str()));
        *target = rest;
    }
}

/// [`Sanitizer`] trims left whitespace.
pub struct trim_left;

impl Sanitizer<String> for trim_left {
    open spec fn usable(&self) -> bool {
        true
    }

    open spec fn sanitizes(&self, before: String, after: String) -> bool {
        after@ == without_leading_space(before@)
    }

    fn sanitize(&self, target: &mut String) {
        let rest = String::from_str(trim_start(target.as_str()));
        *target = rest;
    }
}

/// [`Sanitizer`] trims right whitespace.
pub struct trim_right;

impl Sanitizer<String> for trim_right {
    open spec fn usable(&self) -> bool {
        true
    }

    open spec fn sanitizes(&self, before: String, after: String) -> bool {
        after@ == without_trailing_space(before@)
    }

    fn sanitize(&self, target: &mut String) {
        let rest = String::from_str(trim_end(target.as_str()));
        *target = rest;
    }
}

/// [`Validator`] checks if only alphabetic.
pub struct alphabetic;

impl Validator<String> for alphabetic {
    open spec fn usable(&self) -> bool {
        true
    }

    open spec fn accepts(&self, target: String) -> bool {
        all_in(CharClass::Alphabetic, target@)
    }

    fn validate(&self, target: &String) -> (valid: bool) {
        every_char_is(CharClass::Alphabetic, target.as_str())
    }
}

/// [`Validator`] checks if only alphanumeric: letters and digits.
pub struct alphanumeric;

impl Validator<String> for alphanumeric {
    open spec fn usable(&self) -> bool {
        true
    }

    open spec fn accepts(&self, target: String) -> bool {
        all_in(CharClass::Alphanumeric, target@)
    }

    fn validate(&self, target: &String) -> (valid: bool) {
        every_char_is(CharClass::Alphanumeric, target.as_str())
    }
}

/// [`Validator`] checks if only ASCII.
pub struct ascii;

impl Validator<String> for ascii {
    open spec fn usable(&self) -> bool {
        true
    }

    open spec fn accepts(&self, target: String) -> bool {
        vstd::utf8::is_ascii_chars(target@)
    }

    fn validate(&self, target: &String) -> (valid: bool) {
        target.as_str().is_ascii()
    }
}

/// [`Sanitizer`] converts to lowercase. [`Validator`] checks if only lowercase.
pub struct lowercase;

impl Sanitizer<String> for lowercase {
    open spec fn usable(&self) -> bool {
        true
    }

    open spec fn sanitizes(&self, before: String, after: String) -> bool {
        after@ == lowercased(before@)
    }

    fn sanitize(&self, target: &mut String) {
        let lower = to_lowercase(target.as_str());
        *target = lower;
    }
}

impl Validator<String> for lowercase {
    open spec fn usable(&self) -> bool {
        true
    }

    open spec fn accepts(&self, target: String) -> bool {
        all_in(CharClass::Lowercase, target@)
    }

    fn validate(&self, target: &String) -> (valid: bool) {
        every_char_is(CharClass::Lowercase, target.as_str())
    }
}

/// [`Sanitizer`] converts to uppercase. [`Validator`] checks if only uppercase.
pub struct uppercase;

impl Sanitizer<String> for uppercase {
    open spec fn usable(&self) -> bool {
        true
    }

    open spec fn sanitizes(&self, before: String, after: String) -> bool {
        after@ == uppercased(before@)
    }

    fn sanitize(&self, target: &mut String) {
        let upper = to_uppercase(target.as_str());
        *target = upper;
    }
}

impl Validator<String> for uppercase {
    open spec fn usable(&self) -> bool {
        true
    }

    open spec fn accepts(&self, target: String) -> bool {
        all_in(CharClass::Uppercase, target@)
    }

    fn validate(&self, target: &String) -> (valid: bool) {
        every_char_is(CharClass::Uppercase, target.as_str())
    }
}

/// [`Validator`] forwards length to inner validator.
pub enum length<V> {
    /// The length in bytes of the UTF-8 encoding.
    bytes(V),
    /// The number of characters.
    chars(V),
}

impl<V: Validator<usize>> Validator<String> for length<V> {
    open spec fn usable(&self) -> bool {
        match self {
            length::bytes(v) => v.usable(),
            length::chars(v) => v.usable(),
        }
    }

    open spec fn accepts(&self, target: String) -> bool {
        match self {
            length::bytes(v) => v.accepts(vstd::utf8::encode_utf8(target@).len() as usize),
            length::chars(v) => v.accepts(target@.len() as usize),
        }
    }

    fn validate(&self, target: &String) -> (valid: bool) {
        let target = target.as_str();
        match self {
            length::bytes(v) => v.validate(&target.len()),
            length::chars(v) => v.validate(&target.unicode_len()),
        }
    }
}

/// [`Validator`] checks if not empty.
pub struct not_empty;

impl Validator<String> for not_empty {
    open spec fn usable(&self) -> bool {
        true
    }

    open spec fn accepts(&self, target: String) -> bool {
        target@.len() > 0
    }

    fn validate(&self, target: &String) -> (valid: bool) {
        !target.as_str().is_empty()
    }
}

/// Whether `regex::Regex::new` accepts `pattern`, under the crate's default limits.
pub uninterp spec fn regex_compiles(pattern: Seq<char>) -> bool;

/// Whether the regular expression `pattern` has a match somewhere in `text`,
/// as `regex::Regex::is_match` reports it.
pub uninterp spec fn regex_is_match(pattern: Seq<char>, text: Seq<char>) -> bool;

/// `regex::Regex::new` on `pattern`, then `Regex::is_match` of what it built on
/// `text`: nothing where the pattern is refused, else whether a match exists
/// anywhere in the text. Both depend on the two texts alone.
#[verifier::external_body]
pub(crate) fn search(pattern: &str, text: &str) -> (found: Option<bool>)
    ensures
        found == if regex_compiles(pattern@) {
            Some(regex_is_match(pattern@, text@))
        } else {
            None::<bool>
        },
{
    match ::regex::Regex::new(pattern) {
        Ok(compiled) => Some(compiled.is_match(text)),
        Err(_) => None,
    }
}

/// Whether the search found a match.
pub fn has_match(found: Option<bool>) -> (matched: bool)
    ensures
        matched == (found == Some(true)),
{
    match found {
        Some(matched) => matched,
        None => false,
    }
}

/// [`Validator`] checks if matches regex.
pub struct _regex {
    pattern: String,
}

impl _regex {
    /// The regular expression that targets are held against.
    pub closed spec fn pattern(&self) -> Seq<char> {
        self.pattern@
    }
}

impl Validator<String> for _regex {
    open spec fn usable(&self) -> bool {
        true
    }

    open spec fn accepts(&self, target: String) -> bool {
        regex_compiles(self.pattern()) && regex_is_match(self.pattern(), target@)
    }

    fn validate(&self, target: &String) -> (valid: bool) {
        has_match(search(self.pattern.as_str(), target.as_str()))
    }
}

/// [`Validator`] checks if matches regex.
///
/// The pattern has to be one that compiles; `try_regex` is for patterns of
/// which that is not known.
pub fn regex(pattern: &str) -> (validator: _regex)
    requires
        regex_compiles(pattern@),
    ensures
        validator.pattern() == pattern@,
{
    _regex { pattern: String::from_str(pattern) }
}

/// [`Validator`] checks if matches regex, where the pattern compiles; nothing where it does not.
pub fn try_regex(pattern: &str) -> (validator: Option<_regex>)
    ensures
        match validator {
            Some(validator) => regex_compiles(pattern@) && validator.pattern() == pattern@,
            None => !regex_compiles(pattern@),
        },
{
    match search(pattern, "") {
        Some(_) => Some(regex(pattern)),
        None => None,
    }
}

} // verus!
