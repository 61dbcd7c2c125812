use crate::channel::constants::DEFAULT_STRIP_PROMPT;
use crate::channel::patterns::Pattern;
use crate::errors::ScrapliError;
use vstd::prelude::*;

verus! {

/// Holds options to use when handling input to the `Channel`.
pub struct Options {
    /// Indicates if the prompt should be stripped out of the returned
    /// output or not. This defaults to *true*.
    pub strip_prompt: bool,
    /// Eagerly send the input: send it and do not wait to return to the
    /// expected prompt.
    pub eager: bool,
    /// Timeout of the operation in microseconds; overrides, if set, the
    /// timeout of the channel.
    pub timeout: Option<u64>,
    /// Patterns that signify that an interactive operation is complete.
    pub complete_patterns: Vec<Pattern>,
    /// Patterns that are accepted as prompts *during* an operation.
    pub interim_prompt_patterns: Vec<Pattern>,
}

impl Default for Options {
    fn default() -> (options: Self)
        ensures
            options.strip_prompt == DEFAULT_STRIP_PROMPT,
            !options.eager,
            options.timeout.is_none(),
            options.complete_patterns@.len() == 0,
            options.interim_prompt_patterns@.len() == 0,
    {
        Options {
            strip_prompt: DEFAULT_STRIP_PROMPT,
            eager: false,
            timeout: None,
            complete_patterns: Vec::new(),
            interim_prompt_patterns: Vec::new(),
        }
    }
}

/// The texts of a list of patterns.
pub open spec fn pattern_texts(patterns: Seq<Pattern>) -> Seq<Seq<char>> {
    patterns.map_values(|p: Pattern| p@)
}

/// One of the patterns with these texts matches somewhere in `haystack`.
pub open spec fn any_matches(texts: Seq<Seq<char>>, haystack: Seq<u8>) -> bool {
    exists|i: int| 0 <= i < texts.len() && crate::channel::patterns::pattern_matches(#[trigger] texts[i], haystack)
}

/// A copy of a list of patterns.
pub fn clone_patterns(patterns: &Vec<Pattern>) -> (copy: Vec<Pattern>)
    ensures
        pattern_texts(copy@) == pattern_texts(patterns@),
{
    let mut copy: Vec<Pattern> = Vec::new();
    let mut i: usize = 0;
    while i < patterns.len()
        invariant
            i <= patterns@.len(),
            copy@.len() == i,
            forall|j: int| 0 <= j < i ==> (#[trigger] copy@[j])@ == patterns@[j]@,
        decreases patterns@.len() - i,
    {
        copy.push(patterns[i].clone());
        i += 1;
    }
    assert(pattern_texts(copy@) =~= pattern_texts(patterns@));
    copy
}

impl Clone for Options {
    fn clone(&self) -> (copy: Self)
        ensures
            copy.strip_prompt == self.strip_prompt,
            copy.eager == self.eager,
            copy.timeout == self.timeout,
            pattern_texts(copy.complete_patterns@) == pattern_texts(self.complete_patterns@),
            pattern_texts(copy.interim_prompt_patterns@) == pattern_texts(
                self.interim_prompt_patterns@,
            ),
    {
        Options {
            strip_prompt: self.strip_prompt,
            eager: self.eager,
            timeout: self.timeout,
            complete_patterns: clone_patterns(&self.complete_patterns),
            interim_prompt_patterns: clone_patterns(&self.interim_prompt_patterns),
        }
    }
}

/// What an operation asks next of whoever drives it. The driver of an
/// operation performs the action and asks again; after a read it first
/// hands over the chunk that was read.
pub enum Action {
    /// Write these bytes to the transport.
    Write(Vec<u8>),
    /// Sleep for so many microseconds, then read one chunk from the channel
    /// and hand it over.
    Read(u64),
    /// The operation is complete, with this result.
    Done(Vec<u8>),
    /// The operation failed.
    Fail(ScrapliError),
}

} // verus!
