/// The generic driver: commands in, responses out, and no idea of
/// privilege levels.
pub mod generic;

/// The network driver: a generic driver that knows the privilege levels
/// of a device and moves between them.
pub mod network;

pub use generic::builder::Builder as GenericDriverBuilder;
pub use generic::driver::Driver as GenericDriver;
pub use generic::driver::OperationOptions as GenericDriverOperationOptions;
pub use network::builder::Builder as NetworkDriverBuilder;
pub use network::driver::Driver as NetworkDriver;
