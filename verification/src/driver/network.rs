/// Building a network driver from settings.
pub mod builder;

/// The graph of the privilege levels, and the search for a way through it.
pub mod graph;

/// The network driver itself.
pub mod driver;
