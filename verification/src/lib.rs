//! A screen-scraping client core for network devices that only offer an
//! interactive shell: byte queue, read-until conditions, in-band
//! authentication, send engines and the privilege-level graph, each with a
//! machine-checked contract.
//!
//! The crate does no input or output of its own. An operation on a device
//! (reading until the prompt, authenticating, sending an input or a
//! dialog) is a value that is asked, again and again, what to do next:
//! write these bytes, read a chunk, or stop with a result or an error. Whoever drives the
//! operation performs the write or the read, hands each chunk that was
//! read to the operation, and asks again. The drivers work the same way
//! one level up: they ask for whole operations of the channel and take
//! their results.
//!
//! Times are microseconds: instants are counted from the start of 1970
//! (UTC), and may be negative; delays and timeouts are unsigned.

/// The channel: everything between the raw bytes of a transport and the
/// result of one operation on the device.
pub mod channel;

/// The drivers: what a user of the crate works with.
pub mod driver;

/// The one error type of the crate.
pub mod errors;

/// The description of a platform: a type of device.
pub mod platform;

/// The records that the operations of a driver return.
pub mod response;

/// What a transport is, and the arguments of the transports.
pub mod transport;

/// Small helpers on bytes, strings and the chunk queue.
pub mod util;
