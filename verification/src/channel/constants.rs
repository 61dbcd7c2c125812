use vstd::prelude::*;

verus! {

/// The default depth to search backward when looking for a device "prompt".
pub const DEFAULT_PROMPT_SEARCH_DEPTH: u16 = 1024;

/// The default return character. Some devices need `"\r\n"` instead.
pub const DEFAULT_RETURN_CHAR: &'static str = "\n";

/// The default delay between reads from the underlying transport, in
/// microseconds.
pub const DEFAULT_READ_DELAY: u64 = 250;

/// The ANSI escape byte.
pub const ANSI_ESCAPE_BYTE: u8 = 0x1b;

/// A newline character as a byte.
pub const NEW_LINE_BYTE: u8 = 0x0a;

/// How many times a username prompt may be answered.
pub const USER_SEEN_MAX: u8 = 2;

/// How many times a password prompt may be answered.
pub const PASSWORD_SEEN_MAX: u8 = 2;

/// How many times a prompt for the passphrase of an ssh key may be answered.
pub const PASSPHRASE_SEEN_MAX: u8 = 2;

/// Default "strip prompt" value (yes, strip the prompt by default).
pub const DEFAULT_STRIP_PROMPT: bool = true;

/// Default `timeout_ops` value, in microseconds: thirty seconds.
pub const DEFAULT_TIMEOUT_OPS: u64 = 30_000_000;

} // verus!
