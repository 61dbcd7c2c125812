use crate::channel::constants::{
    DEFAULT_PROMPT_SEARCH_DEPTH,
    DEFAULT_READ_DELAY,
    DEFAULT_RETURN_CHAR,
    DEFAULT_TIMEOUT_OPS,
};
use crate::channel::patterns::{
    default_auth_passphrase_pattern,
    default_auth_password_pattern,
    default_auth_username_pattern,
    default_comms_prompt_pattern,
    Pattern,
    DEFAULT_PASSPHRASE_PATTERN,
    DEFAULT_PASSWORD_PATTERN,
    DEFAULT_PROMPT_PATTERN,
    DEFAULT_USERNAME_PATTERN,
};
use vstd::prelude::*;

verus! {

/// A struct to hold the settings of a `Channel` object.
pub struct Args {
    /// Indicates if we should bypass in channel authentication or not.
    pub auth_bypass: bool,
    /// How many trailing bytes of a chunk are searched for the prompt.
    pub prompt_search_depth: u16,
    /// Pattern used to find the prompt.
    pub prompt_pattern: Pattern,
    /// Return character used to... send returns.
    pub return_char: String,
    /// Pattern used to find the username prompt during in channel authentication.
    pub username_pattern: Pattern,
    /// Pattern used to find the password prompt during in channel authentication.
    pub password_pattern: Pattern,
    /// Pattern used to find the ssh key passphrase prompt during in channel authentication.
    pub passphrase_pattern: Pattern,
    /// Delay between reads of the queue, in microseconds.
    pub read_delay: u64,
    /// The timeout for channel send operations, in microseconds.
    pub timeout_ops: u64,
}

impl Args {
    /// The two agree in everything but the prompt pattern.
    pub open spec fn same_but_prompt(self, other: Self) -> bool {
        &&& self.auth_bypass == other.auth_bypass
        &&& self.prompt_search_depth == other.prompt_search_depth
        &&& self.return_char == other.return_char
        &&& self.username_pattern == other.username_pattern
        &&& self.password_pattern == other.password_pattern
        &&& self.passphrase_pattern == other.passphrase_pattern
        &&& self.read_delay == other.read_delay
        &&& self.timeout_ops == other.timeout_ops
    }
}

impl Default for Args {
    fn default() -> (args: Self)
        ensures
            !args.auth_bypass,
            args.prompt_search_depth == DEFAULT_PROMPT_SEARCH_DEPTH,
            args.prompt_pattern@ == DEFAULT_PROMPT_PATTERN@,
            args.return_char@ == DEFAULT_RETURN_CHAR@,
            args.username_pattern@ == DEFAULT_USERNAME_PATTERN@,
            args.password_pattern@ == DEFAULT_PASSWORD_PATTERN@,
            args.passphrase_pattern@ == DEFAULT_PASSPHRASE_PATTERN@,
            args.read_delay == DEFAULT_READ_DELAY,
            args.timeout_ops == DEFAULT_TIMEOUT_OPS,
    {
        Args {
            auth_bypass: false,
            prompt_search_depth: DEFAULT_PROMPT_SEARCH_DEPTH,
            prompt_pattern: default_comms_prompt_pattern(),
            return_char: DEFAULT_RETURN_CHAR.to_owned(),
            username_pattern: default_auth_username_pattern(),
            password_pattern: default_auth_password_pattern(),
            passphrase_pattern: default_auth_passphrase_pattern(),
            read_delay: DEFAULT_READ_DELAY,
            timeout_ops: DEFAULT_TIMEOUT_OPS,
        }
    }
}

} // verus!
