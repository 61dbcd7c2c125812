use crate::channel::args::Args as ChannelArgs;
use crate::channel::channel::Channel;
use crate::channel::patterns::Pattern;
use crate::driver::generic::driver::{Args, Driver};
use crate::transport::base::{TransportArgs, TransportSSHArgs, TransportType};
use crate::transport::system::SystemArgs;
use vstd::prelude::*;

verus! {

/// `Builder` holds the settings, with their defaults, from which a
/// *generic* driver and its transport are built.
pub struct Builder {
    /// The arguments of the driver.
    pub args: Args,
    /// The arguments of the channel.
    pub channel_args: ChannelArgs,
    /// The kind of transport.
    pub transport_type: TransportType,
    /// The arguments of the transport.
    pub transport_args: TransportArgs,
    /// The ssh arguments of the transport.
    pub transport_ssh_args: TransportSSHArgs,
    /// The arguments of the system transport.
    pub transport_system_args: SystemArgs,
}

/// What a builder builds: the driver, and the settings from which its
/// transport is made.
pub struct Built {
    /// The driver.
    pub driver: Driver,
    /// The kind of transport.
    pub transport_type: TransportType,
    /// The arguments of the transport.
    pub transport_args: TransportArgs,
    /// The ssh arguments of the transport.
    pub transport_ssh_args: TransportSSHArgs,
    /// The arguments of the system transport.
    pub transport_system_args: SystemArgs,
}

impl Builder {
    /// Return a new instance of `Builder` for the given host, with sane
    /// defaults set.
    pub fn new(host: &str) -> (built: Self)
        ensures
            built.args.host@ == host@,
            built.args.port == crate::transport::base::DEFAULT_PORT,
            built.args.failed_when_contains@.len() == 0,
            built.transport_type == TransportType::System,
            built.transport_args.host@ == host@,
            built.transport_args.port == crate::transport::base::DEFAULT_PORT,
            !built.channel_args.auth_bypass,
            built.channel_args.prompt_pattern@ == crate::channel::patterns::DEFAULT_PROMPT_PATTERN@,
            built.transport_system_args.open_args@.len() == 0,
    {
        Builder {
            args: Args::new(host),
            channel_args: ChannelArgs::default(),
            transport_type: TransportType::System,
            transport_args: TransportArgs::new(host),
            transport_ssh_args: TransportSSHArgs::default(),
            transport_system_args: SystemArgs::default(),
        }
    }

    /// Sets the `auth_bypass` option: with it the channel skips any kind of in
    /// channel authentication.
    pub fn auth_bypass(self, b: bool) -> (built: Self)
        ensures
            built == (Self { channel_args: ChannelArgs { auth_bypass: b, ..self.channel_args }, ..self }),
    {
        let mut built = self;
        built.channel_args.auth_bypass = b;
        built
    }

    /// Sets the channel `prompt_search_depth`: how far back in a chunk of
    /// output the prompt is searched for. A smaller depth means less data to
    /// match against, at the risk of missing the prompt.
    pub fn prompt_search_depth(self, i: u16) -> (built: Self)
        ensures
            built == (Self { channel_args: ChannelArgs { prompt_search_depth: i, ..self.channel_args }, ..self }),
    {
        let mut built = self;
        built.channel_args.prompt_search_depth = i;
        built
    }

    /// Sets the `prompt_pattern`: the pattern by which the channel knows that
    /// the device is at a prompt, and the operation before is done.
    pub fn prompt_pattern(self, r: Pattern) -> (built: Self)
        ensures
            built == (Self { channel_args: ChannelArgs { prompt_pattern: r, ..self.channel_args }, ..self }),
    {
        let mut built = self;
        built.channel_args.prompt_pattern = r;
        built
    }

    /// Sets the `username_pattern`: the pattern of the prompt for the user
    /// name, for use when authenticating.
    pub fn username_pattern(self, r: Pattern) -> (built: Self)
        ensures
            built == (Self { channel_args: ChannelArgs { username_pattern: r, ..self.channel_args }, ..self }),
    {
        let mut built = self;
        built.channel_args.username_pattern = r;
        built
    }

    /// Sets the `password_pattern`: the pattern of the prompt for the
    /// password, for use when authenticating.
    pub fn password_pattern(self, r: Pattern) -> (built: Self)
        ensures
            built == (Self { channel_args: ChannelArgs { password_pattern: r, ..self.channel_args }, ..self }),
    {
        let mut built = self;
        built.channel_args.password_pattern = r;
        built
    }

    /// Sets the `passphrase_pattern`: the pattern of the prompt for the
    /// passphrase of an ssh key, for use when authenticating.
    pub fn passphrase_pattern(self, r: Pattern) -> (built: Self)
        ensures
            built == (Self { channel_args: ChannelArgs { passphrase_pattern: r, ..self.channel_args }, ..self }),
    {
        let mut built = self;
        built.channel_args.passphrase_pattern = r;
        built
    }

    /// Sets the `read_delay` of the underlying channel, in microseconds.
    pub fn read_delay(self, d: u64) -> (built: Self)
        ensures
            built == (Self { channel_args: ChannelArgs { read_delay: d, ..self.channel_args }, ..self }),
    {
        let mut built = self;
        built.channel_args.read_delay = d;
        built
    }

    /// Sets the `timeout_ops` of the underlying channel, in microseconds.
    pub fn timeout_ops(self, d: u64) -> (built: Self)
        ensures
            built == (Self { channel_args: ChannelArgs { timeout_ops: d, ..self.channel_args }, ..self }),
    {
        let mut built = self;
        built.channel_args.timeout_ops = d;
        built
    }

    /// Defines the transport type to use with the driver.
    pub fn transport_type(self, t: TransportType) -> (built: Self)
        ensures
            built == (Self { transport_type: t, ..self }),
    {
        let mut built = self;
        built.transport_type = t;
        built
    }

    /// Sets the `timeout_socket` parameter, in seconds.
    pub fn timeout_socket(self, d: u64) -> (built: Self)
        ensures
            built == (Self { transport_args: TransportArgs { timeout_socket: d, ..self.transport_args }, ..self }),
    {
        let mut built = self;
        built.transport_args.timeout_socket = d;
        built
    }

    /// Sets the read size of the underlying transport.
    pub fn read_size(self, i: u16) -> (built: Self)
        ensures
            built == (Self { transport_args: TransportArgs { read_size: i, ..self.transport_args }, ..self }),
    {
        let mut built = self;
        built.transport_args.read_size = i;
        built
    }

    /// Sets the terminal height if applicable for the selected transport.
    pub fn term_height(self, i: u16) -> (built: Self)
        ensures
            built == (Self { transport_args: TransportArgs { term_height: i, ..self.transport_args }, ..self }),
    {
        let mut built = self;
        built.transport_args.term_height = i;
        built
    }

    /// Sets the terminal width if applicable for the selected transport.
    pub fn term_width(self, i: u16) -> (built: Self)
        ensures
            built == (Self { transport_args: TransportArgs { term_width: i, ..self.transport_args }, ..self }),
    {
        let mut built = self;
        built.transport_args.term_width = i;
        built
    }

    /// Enable or disable ssh strict key checking for *ssh* transports.
    pub fn ssh_strict_key(self, b: bool) -> (built: Self)
        ensures
            built == (Self { transport_ssh_args: TransportSSHArgs { strict_key: b, ..self.transport_ssh_args }, ..self }),
    {
        let mut built = self;
        built.transport_ssh_args.strict_key = b;
        built
    }

    /// Sets the `failed_when_contains` argument of a driver.
    pub fn failed_when_contains(self, v: Vec<String>) -> (built: Self)
        ensures
            built == (Self { args: Args { failed_when_contains: v, ..self.args }, ..self }),
    {
        let mut built = self;
        built.args.failed_when_contains = v;
        built
    }

    /// Set the `open_args` setting of a `System` transport. Will be ignored if
    /// transport type is not `System`.
    pub fn system_open_args(self, v: Vec<String>) -> (built: Self)
        ensures
            built == (Self { transport_system_args: SystemArgs { open_args: v, ..self.transport_system_args }, ..self }),
    {
        let mut built = self;
        built.transport_system_args.open_args = v;
        built
    }

    /// Set the `extra_args` setting of a `System` transport. Will be ignored if
    /// transport type is not `System`.
    pub fn system_extra_args(self, v: Vec<String>) -> (built: Self)
        ensures
            built == (Self { transport_system_args: SystemArgs { extra_args: v, ..self.transport_system_args }, ..self }),
    {
        let mut built = self;
        built.transport_system_args.extra_args = v;
        built
    }

    /// Sets the `return_char` of the channel object.
    pub fn return_char(self, s: &str) -> (built: Self)
        ensures
            built.channel_args.return_char@ == s@,
            built == (Self { channel_args: ChannelArgs { return_char: built.channel_args.return_char, ..self.channel_args }, ..self }),
    {
        let mut built = self;
        built.channel_args.return_char = s.to_owned();
        built
    }

    /// Sets the user(name) to use for authentication.
    pub fn user(self, s: &str) -> (built: Self)
        ensures
            built.transport_args.user@ == s@,
            built == (Self { transport_args: TransportArgs { user: built.transport_args.user, ..self.transport_args }, ..self }),
    {
        let mut built = self;
        built.transport_args.user = s.to_owned();
        built
    }

    /// Sets the password to use for authentication.
    pub fn password(self, s: &str) -> (built: Self)
        ensures
            built.transport_args.password@ == s@,
            built == (Self { transport_args: TransportArgs { password: built.transport_args.password, ..self.transport_args }, ..self }),
    {
        let mut built = self;
        built.transport_args.password = s.to_owned();
        built
    }

    /// Sets the `private_key_path` argument of a driver using an *ssh* transport.
    pub fn ssh_private_key_path(self, s: &str) -> (built: Self)
        ensures
            built.transport_ssh_args.private_key_path@ == s@,
            built == (Self { transport_ssh_args: TransportSSHArgs { private_key_path: built.transport_ssh_args.private_key_path, ..self.transport_ssh_args }, ..self }),
    {
        let mut built = self;
        built.transport_ssh_args.private_key_path = s.to_owned();
        built
    }

    /// Sets the `private_key_passphrase` argument of a driver using an *ssh*
    /// transport.
    pub fn ssh_private_key_passphrase(self, s: &str) -> (built: Self)
        ensures
            built.transport_ssh_args.private_key_passphrase@ == s@,
            built == (Self { transport_ssh_args: TransportSSHArgs { private_key_passphrase: built.transport_ssh_args.private_key_passphrase, ..self.transport_ssh_args }, ..self }),
    {
        let mut built = self;
        built.transport_ssh_args.private_key_passphrase = s.to_owned();
        built
    }

    /// Sets the `config_file_path` argument of a driver using an *ssh* transport.
    pub fn ssh_config_file_path(self, s: &str) -> (built: Self)
        ensures
            built.transport_ssh_args.config_file_path@ == s@,
            built == (Self { transport_ssh_args: TransportSSHArgs { config_file_path: built.transport_ssh_args.config_file_path, ..self.transport_ssh_args }, ..self }),
    {
        let mut built = self;
        built.transport_ssh_args.config_file_path = s.to_owned();
        built
    }

    /// Sets the `known_hosts_file_path` argument of a driver using an *ssh*
    /// transport.
    pub fn ssh_known_hosts_file_path(self, s: &str) -> (built: Self)
        ensures
            built.transport_ssh_args.known_hosts_file_path@ == s@,
            built == (Self { transport_ssh_args: TransportSSHArgs { known_hosts_file_path: built.transport_ssh_args.known_hosts_file_path, ..self.transport_ssh_args }, ..self }),
    {
        let mut built = self;
        built.transport_ssh_args.known_hosts_file_path = s.to_owned();
        built
    }

    /// Set the `open_bin` setting of a `System` transport. Will be ignored if
    /// transport type is not `System`.
    pub fn system_open_bin(self, s: &str) -> (built: Self)
        ensures
            built.transport_system_args.open_bin@ == s@,
            built == (Self { transport_system_args: SystemArgs { open_bin: built.transport_system_args.open_bin, ..self.transport_system_args }, ..self }),
    {
        let mut built = self;
        built.transport_system_args.open_bin = s.to_owned();
        built
    }

    /// Sets the port to connect to, for the driver and for the transport.
    pub fn port(self, i: u16) -> (built: Self)
        ensures
            built == (Self {
                args: Args { port: i, ..self.args },
                transport_args: TransportArgs { port: i, ..self.transport_args },
                ..self
            }),
    {
        let mut built = self;
        built.args.port = i;
        built.transport_args.port = i;
        built
    }

    /// Builds the driver, with a channel of the channel settings, and
    /// hands out the settings of its transport with it.
    pub fn build(self) -> (built: Built)
        ensures
            built.driver.args == self.args,
            built.driver.channel.args == self.channel_args,
            built.transport_type == self.transport_type,
            built.transport_args == self.transport_args,
            built.transport_ssh_args == self.transport_ssh_args,
            built.transport_system_args == self.transport_system_args,
    {
        Built {
            driver: Driver::new(self.args, Channel::new(self.channel_args)),
            transport_type: self.transport_type,
            transport_args: self.transport_args,
            transport_ssh_args: self.transport_ssh_args,
            transport_system_args: self.transport_system_args,
        }
    }
}

} // verus!
