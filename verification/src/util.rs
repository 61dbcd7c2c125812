/// Searching and trimming byte slices.
pub mod bytes;

/// The first-in, first-out queue of byte chunks that sits between the
/// reader of a transport and the consumer of its output.
pub mod queue;

/// The wall clock, and deadlines on it.
pub mod clock;

/// Looking for strings in strings and in lists of strings.
pub mod strings;
