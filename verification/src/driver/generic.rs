/// Building a generic driver from settings.
pub mod builder;

/// The generic driver itself.
pub mod driver;
