/// The trait that all transports implement, and the arguments they share.
pub mod base;

/// The arguments of the "system" transport, which runs `ssh` in a
/// pseudo-terminal, and the command line it is started with.
pub mod system;
