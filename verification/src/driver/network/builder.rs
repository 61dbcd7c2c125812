use crate::driver::generic::builder::Builder as GenericDriverBuilder;
use crate::driver::network::driver::{Args, Driver, PrivilegeLevel};
use crate::transport::base::{TransportArgs, TransportSSHArgs, TransportType};
use crate::transport::system::SystemArgs;
use vstd::prelude::*;

verus! {

/// `Builder` holds the settings from which a *network* driver is built. It
/// sits on top of the builder of the generic driver.
pub struct Builder {
    /// The builder of the generic driver.
    pub generic_driver_builder: GenericDriverBuilder,
    /// The arguments of the network driver.
    pub args: Args,
}

/// What a builder builds: the driver, and the settings from which its
/// transport is made.
pub struct Built {
    /// The driver.
    pub driver: Driver,
    /// The kind of transport.
    pub transport_type: TransportType,
    /// The arguments of the transport.
    pub transport_args: TransportArgs,
    /// The ssh arguments of the transport.
    pub transport_ssh_args: TransportSSHArgs,
    /// The arguments of the system transport.
    pub transport_system_args: SystemArgs,
}

impl Builder {
    /// Return a new instance of `Builder` with sane defaults set.
    pub fn new(generic_driver_builder: GenericDriverBuilder) -> (built: Self)
        ensures
            built.generic_driver_builder == generic_driver_builder,
            built.args.secondary_password@.len() == 0,
            built.args.privilege_levels@.len() == 0,
            built.args.default_desired_privilege_level@.len() == 0,
    {
        Builder { generic_driver_builder, args: Args::default() }
    }

    /// Sets the `secondary_password` password to use for (enable/escalate) authentication.
    pub fn secondary_password(self, s: &str) -> (built: Self)
        ensures
            built.args.secondary_password@ == s@,
            built == (Self {
                args: Args { secondary_password: built.args.secondary_password, ..self.args },
                ..self
            }),
    {
        let mut built = self;
        built.args.secondary_password = s.to_owned();
        built
    }

    /// Sets the privilege levels for the network driver.
    pub fn privilege_levels(self, p: Vec<PrivilegeLevel>) -> (built: Self)
        ensures
            built == (Self { args: Args { privilege_levels: p, ..self.args }, ..self }),
    {
        let mut built = self;
        built.args.privilege_levels = p;
        built
    }

    /// Sets the `default_desired_privilege_level` for the network driver.
    pub fn default_desired_privilege_level(self, s: &str) -> (built: Self)
        ensures
            built.args.default_desired_privilege_level@ == s@,
            built == (Self {
                args: Args {
                    default_desired_privilege_level: built.args.default_desired_privilege_level,
                    ..self.args
                },
                ..self
            }),
    {
        let mut built = self;
        built.args.default_desired_privilege_level = s.to_owned();
        built
    }

    /// Builds the driver on top of the generic driver that the generic
    /// builder builds, and hands out the settings of its transport with it.
    pub fn build(self) -> (built: Built)
        ensures
            built.driver.args == self.args,
            built.driver.generic_driver.args == self.generic_driver_builder.args,
            built.driver.generic_driver.channel.args == self.generic_driver_builder.channel_args,
            built.driver.current_privilege_level@.len() == 0,
            built.driver.privilege_level_graph.well_formed(),
            built.transport_type == self.generic_driver_builder.transport_type,
            built.transport_args == self.generic_driver_builder.transport_args,
            built.transport_ssh_args == self.generic_driver_builder.transport_ssh_args,
            built.transport_system_args == self.generic_driver_builder.transport_system_args,
    {
        let generic = self.generic_driver_builder.build();
        Built {
            driver: Driver::new(generic.driver, self.args),
            transport_type: generic.transport_type,
            transport_args: generic.transport_args,
            transport_ssh_args: generic.transport_ssh_args,
            transport_system_args: generic.transport_system_args,
        }
    }
}

} // verus!
