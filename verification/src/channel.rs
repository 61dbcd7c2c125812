/// The settings of a channel.
pub mod args;

/// In-channel authentication: answering the prompts for a user name, a
/// password or a passphrase, a bounded number of times.
pub mod authenticate;

/// The channel itself, and reading what the read loop queued.
pub mod channel;

/// Defaults and limits.
pub mod constants;

/// The options of one operation, and what an operation asks of whoever
/// drives it.
pub mod operation;

/// Compiled patterns and the patterns a channel starts with.
pub mod patterns;

/// One turn of the loop that reads the transport and fills the queue.
pub mod read_loop;

/// Reading until a condition holds of what was read.
pub mod read_until;

/// Sending one input and collecting what the device answers.
pub mod send_input;

/// Sending a dialog of inputs, each with the answer it expects.
pub mod send_interactive;

/// Helpers of the channel.
pub mod util;

/// What is written to the device, and asking it for its prompt.
pub mod write;

pub use args::Args;
pub use channel::Channel;
pub use operation::Options as OperationOptions;
pub use send_interactive::Event as SendInteractiveEvent;
pub use send_interactive::Events as SendInteractiveEvents;
