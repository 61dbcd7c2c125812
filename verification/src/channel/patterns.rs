use crate::errors::ScrapliError;
use regex::bytes::Regex;
use regex::bytes::RegexBuilder;
use vstd::prelude::*;
use vstd::string::StringExecFns;

verus! {

#[verifier::external_type_specification]
#[verifier::external_body]
pub struct ExRegex(regex::bytes::Regex);

#[verifier::external_type_specification]
#[verifier::external_body]
pub struct ExRegexError(regex::Error);

/// The default prompt pattern: a short host-like name followed by `#`, `>`
/// or `$` at the end of a line, whatever the case.
pub const DEFAULT_PROMPT_PATTERN: &'static str = r"(?im)^[a-z\d.\-@()/:]{1,48}[#>$]\s*$";

/// The default pattern of a prompt for the user name.
pub const DEFAULT_USERNAME_PATTERN: &'static str = r"(?im)^(.*username:)|(.*login:)\s?$";

/// The default pattern of a prompt for the password.
pub const DEFAULT_PASSWORD_PATTERN: &'static str = r"(?im)(.*@.*)?password:\s?$";

/// The default pattern of a prompt for the passphrase of a private key.
pub const DEFAULT_PASSPHRASE_PATTERN: &'static str = r"(?i)enter passphrase for key";

/// The pattern of an ANSI escape sequence.
pub const ANSI_PATTERN: &'static str =
    r"[\u001B\u009B][\[\]()#;?]*(?:(?:(?:[a-zA-Z\d]*(?:;[a-zA-Z\d]*)*)?\u0007)|(?:(?:\d{1,4}(?:;\d{0,4})*)?[\dA-PRZcf-ntqry=><~]))";

/// Where the pattern with this text first matches in `haystack`: the
/// offsets of the first and after the last byte of the leftmost match.
pub uninterp spec fn first_match(pattern: Seq<char>, haystack: Seq<u8>) -> Option<(usize, usize)>;

/// `haystack` with every non-overlapping match of the pattern with this
/// text cut out.
pub uninterp spec fn without_matches(pattern: Seq<char>, haystack: Seq<u8>) -> Seq<u8>;

/// The pattern with this text matches somewhere in `haystack`.
pub open spec fn pattern_matches(pattern: Seq<char>, haystack: Seq<u8>) -> bool {
    first_match(pattern, haystack).is_some()
}

/// One of the patterns that this crate itself provides.
pub open spec fn is_builtin_pattern(text: Seq<char>) -> bool {
    ||| text == DEFAULT_PROMPT_PATTERN@
    ||| text == DEFAULT_USERNAME_PATTERN@
    ||| text == DEFAULT_PASSWORD_PATTERN@
    ||| text == DEFAULT_PASSPHRASE_PATTERN@
    ||| text == ANSI_PATTERN@
}

/// A compiled regular expression over bytes, together with the text it was
/// compiled from. The two always belong together: a pattern is only ever
/// made by compiling its text. Its view is that text: what a pattern
/// matches depends on nothing else.
pub struct Pattern {
    text: String,
    regex: Regex,
}

impl View for Pattern {
    type V = Seq<char>;

    closed spec fn view(&self) -> Seq<char> {
        self.text@
    }
}

/// `Regex::new` of the regex crate: compiles `text`. A pattern that comes
/// back holds the text given. Whether a text compiles is left open, but
/// for the five patterns written out above: each of them compiles.
#[verifier::external_body]
pub(crate) fn compile(text: &str) -> (r: Result<Pattern, regex::Error>)
    ensures
        r matches Ok(p) ==> p@ == text@,
        is_builtin_pattern(text@) ==> r.is_ok(),
{
    match Regex::new(text) {
        Ok(regex) => Ok(Pattern { text: text.to_owned(), regex }),
        Err(err) => Err(err),
    }
}

/// Compiles one of the patterns that this crate itself provides.
fn compile_builtin(text: &str) -> (p: Pattern)
    requires
        is_builtin_pattern(text@),
    ensures
        p@ == text@,
{
    match compile(text) {
        Ok(p) => p,
        Err(_) => vstd::pervasive::unreached(),
    }
}

/// `RegexBuilder::new(..).size_limit(..).build()` of the regex crate:
/// compiles `text` with the given limit on the size of the compiled program.
/// Whether it compiles is left open; a pattern that comes back holds the
/// text given.
#[verifier::external_body]
pub(crate) fn compile_with_size_limit(text: &str, size_limit: usize) -> (r: Result<Pattern, regex::Error>)
    ensures
        r matches Ok(p) ==> p@ == text@,
{
    match RegexBuilder::new(text).size_limit(size_limit).build() {
        Ok(regex) => Ok(Pattern { text: text.to_owned(), regex }),
        Err(err) => Err(err),
    }
}

/// `Regex::is_match` of the regex crate: true if and only if the pattern
/// matches somewhere in the haystack, that is, if `Regex::find` finds
/// something.
#[verifier::external_body]
fn regex_is_match(pattern: &Pattern, haystack: &[u8]) -> (r: bool)
    ensures
        r == first_match(pattern@, haystack@).is_some(),
{
    pattern.regex.is_match(haystack)
}

/// `Regex::find` of the regex crate: the offsets of the leftmost match,
/// which lie in the haystack, the start not after the end.
#[verifier::external_body]
fn regex_find(pattern: &Pattern, haystack: &[u8]) -> (r: Option<(usize, usize)>)
    ensures
        r == first_match(pattern@, haystack@),
        r matches Some(range) ==> range.0 <= range.1 <= haystack@.len(),
{
    pattern.regex.find(haystack).map(|found| (found.start(), found.end()))
}

/// `Regex::replace_all` of the regex crate with an empty replacement: the
/// haystack without the matches.
#[verifier::external_body]
fn regex_remove_all(pattern: &Pattern, haystack: &[u8]) -> (r: Vec<u8>)
    ensures
        r@ == without_matches(pattern@, haystack@),
{
    pattern.regex.replace_all(haystack, Vec::<u8>::new()).to_vec()
}

/// The `Display` text of an error of the regex crate.
#[verifier::external_body]
fn regex_error_text(err: &regex::Error) -> (text: String) {
    format!("{err}")
}

/// `Clone` of a compiled regex of the regex crate.
#[verifier::external_body]
fn regex_clone(regex: &Regex) -> (copy: Regex) {
    regex.clone()
}

impl Clone for Pattern {
    fn clone(&self) -> (copy: Self)
        ensures
            copy@ == self@,
    {
        Pattern { text: self.text.clone(), regex: regex_clone(&self.regex) }
    }
}

/// The message of the error that [`Pattern::new`] returns begins with this.
pub const PATTERN_ERROR_PREFIX: &'static str = "pattern could not be compiled, error: ";

/// `text` begins with `prefix`.
pub open spec fn has_prefix(text: Seq<char>, prefix: Seq<char>) -> bool {
    prefix.len() <= text.len() && text.take(prefix.len() as int) == prefix
}

impl Pattern {
    /// What compiling gave, as this crate hands it on: the pattern, where
    /// one came back; else an error whose message begins with `prefix` and
    /// goes on with what the regex crate says of its error.
    pub fn checked(compiled: Result<Pattern, regex::Error>, prefix: &str) -> (r: Result<
        Self,
        ScrapliError,
    >)
        ensures
            match compiled {
                Ok(p) => r == Ok::<Pattern, ScrapliError>(p),
                Err(_) => r matches Err(e) && has_prefix(e.details@, prefix@),
            },
    {
        match compiled {
            Ok(p) => Ok(p),
            Err(err) => Err(compile_failure(prefix, &err)),
        }
    }

    /// Compiles `text`. A pattern that comes back holds `text`; an error
    /// says that the text could not be compiled, and why. Which of the two
    /// comes back is for the regex crate to say, but for the patterns that
    /// this crate itself provides: a pattern is owed for each of them. What
    /// is made of either outcome is [`Pattern::checked`].
    pub fn new(text: &str) -> (r: Result<Self, ScrapliError>)
        ensures
            r matches Ok(p) ==> p@ == text@,
            r matches Err(e) ==> has_prefix(e.details@, PATTERN_ERROR_PREFIX@),
            is_builtin_pattern(text@) ==> r.is_ok(),
    {
        Self::checked(compile(text), PATTERN_ERROR_PREFIX)
    }

    /// Compiles `text`, allowing the compiled program to take up to
    /// `size_limit` bytes. Which of a pattern and an error comes back is
    /// for the regex crate to say; what is made of either is
    /// [`Pattern::checked`].
    pub fn with_size_limit(text: &str, size_limit: usize) -> (r: Result<Self, ScrapliError>)
        ensures
            r matches Ok(p) ==> p@ == text@,
            r matches Err(e) ==> has_prefix(e.details@, PATTERN_ERROR_PREFIX@),
    {
        Self::checked(compile_with_size_limit(text, size_limit), PATTERN_ERROR_PREFIX)
    }

    /// The text that the pattern was compiled from.
    pub fn as_str(&self) -> (text: &str)
        ensures
            text@ == self@,
    {
        self.text.as_str()
    }

    /// Whether the pattern matches somewhere in `haystack`.
    pub fn is_match(&self, haystack: &[u8]) -> (r: bool)
        ensures
            r == pattern_matches(self@, haystack@),
    {
        regex_is_match(self, haystack)
    }

    /// The bytes of the leftmost match in `haystack`, if there is one.
    pub fn find(&self, haystack: &[u8]) -> (r: Option<Vec<u8>>)
        ensures
            r.is_some() == pattern_matches(self@, haystack@),
            r matches Some(found) ==> found@ == matched_bytes(self@, haystack@),
    {
        match regex_find(self, haystack) {
            Some((start, end)) => Some(copy_range(haystack, start, end)),
            None => None,
        }
    }

    /// `haystack` without what the pattern matches in it.
    pub fn remove_all(&self, haystack: &[u8]) -> (r: Vec<u8>)
        ensures
            r@ == without_matches(self@, haystack@),
    {
        regex_remove_all(self, haystack)
    }
}

/// The bytes of the leftmost match of the pattern in `haystack`; nothing
/// where there is no match.
pub open spec fn matched_bytes(pattern: Seq<char>, haystack: Seq<u8>) -> Seq<u8> {
    match first_match(pattern, haystack) {
        Some(range) => haystack.subrange(range.0 as int, range.1 as int),
        None => Seq::empty(),
    }
}

/// A copy of the bytes of `b` from `start` up to `end`.
pub fn copy_range(b: &[u8], start: usize, end: usize) -> (r: Vec<u8>)
    requires
        start <= end <= b@.len(),
    ensures
        r@ == b@.subrange(start as int, end as int),
{
    let mut r: Vec<u8> = Vec::new();
    let mut i: usize = start;
    while i < end
        invariant
            start <= i <= end <= b@.len(),
            r@ == b@.subrange(start as int, i as int),
        decreases end - i,
    {
        r.push(b[i]);
        assert(r@ =~= b@.subrange(start as int, i + 1));
        i += 1;
    }
    r
}

/// The error for a pattern that did not compile: `prefix`, then what the
/// regex crate says of it.
fn compile_failure(prefix: &str, err: &regex::Error) -> (e: ScrapliError)
    ensures
        has_prefix(e.details@, prefix@),
{
    let mut details = String::from_str(prefix);
    let reason = regex_error_text(err);
    details.append(reason.as_str());
    assert(details@.take(prefix@.len() as int) =~= prefix@);
    ScrapliError { details }
}

/// Returns the compiled default prompt pattern.
pub fn default_comms_prompt_pattern() -> (p: Pattern)
    ensures
        p@ == DEFAULT_PROMPT_PATTERN@,
{
    compile_builtin(DEFAULT_PROMPT_PATTERN)
}

/// Returns the compiled default username (logon) pattern.
pub fn default_auth_username_pattern() -> (p: Pattern)
    ensures
        p@ == DEFAULT_USERNAME_PATTERN@,
{
    compile_builtin(DEFAULT_USERNAME_PATTERN)
}

/// Returns the compiled default password (logon) pattern.
pub fn default_auth_password_pattern() -> (p: Pattern)
    ensures
        p@ == DEFAULT_PASSWORD_PATTERN@,
{
    compile_builtin(DEFAULT_PASSWORD_PATTERN)
}

/// Returns the compiled default passphrase (for private keys) pattern.
pub fn default_auth_passphrase_pattern() -> (p: Pattern)
    ensures
        p@ == DEFAULT_PASSPHRASE_PATTERN@,
{
    compile_builtin(DEFAULT_PASSPHRASE_PATTERN)
}

/// Returns the compiled pattern of ANSI escape sequences.
pub fn ansi_pattern() -> (p: Pattern)
    ensures
        p@ == ANSI_PATTERN@,
{
    compile_builtin(ANSI_PATTERN)
}

} // verus!
