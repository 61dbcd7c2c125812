use crate::errors::ScrapliError;
use vstd::prelude::*;

verus! {

/// The default port: the standard ssh port, 22.
pub const DEFAULT_PORT: u16 = 22;

/// The default time (in seconds) to use for the timeout socket parameter.
pub const DEFAULT_TIMEOUT_SOCKET_SECONDS: u64 = 30;

/// The default transport read size: 8,192 bytes.
pub const DEFAULT_READ_SIZE: u16 = 8_192;

/// The default terminal height for transports (if applicable).
pub const DEFAULT_TERM_HEIGHT: u16 = 255;

/// The default terminal width for transports (if applicable).
pub const DEFAULT_TERM_WIDTH: u16 = 80;

/// The default ssh "strict key" setting (true, try to verify ssh key authenticity).
pub const DEFAULT_SSH_STRICT_KEY: bool = true;

/// Transport is the trait all transports must implement in order to be
/// used by a channel and ultimately by drivers. Nothing is assumed of
/// what an implementation returns.
pub trait Transport {
    /// Open the underlying transport.
    fn open(&mut self) -> Result<(), ScrapliError>;

    /// Close the underlying transport.
    fn close(&mut self) -> Result<(), ScrapliError>;

    /// Indicates if the transport is "alive".
    fn alive(&mut self) -> bool;

    /// Read the default amount of bytes from the underlying transport,
    /// without blocking: nothing to read gives an empty chunk at once.
    fn read(&mut self) -> Result<Vec<u8>, ScrapliError>;

    /// Read up to `n` bytes from the underlying transport, without
    /// blocking.
    fn read_n(&mut self, n: u16) -> Result<Vec<u8>, ScrapliError>;

    /// Write to the underlying transport.
    fn write(&mut self, b: &[u8]) -> Result<(), ScrapliError>;

    /// Returns the `TransportArgs` of the underlying transport.
    fn get_transport_args(self) -> TransportArgs;

    /// Returns the host of the transport.
    fn get_host(&self) -> String;

    /// Returns the port of the transport.
    fn get_port(&self) -> u16;

    /// Returns what the channel needs to authenticate in the channel.
    fn in_channel_auth_data(&self) -> InChannelAuthData;
}

/// An enum defining valid transport implementations.
#[derive(Clone, Copy, Debug, PartialEq, Eq, Structural)]
pub enum TransportType {
    /// System is the "standard"/default transport implementation.
    System,
}

/// A struct holding generic arguments that apply to all transport flavors.
pub struct TransportArgs {
    /// The actual host to connect to.
    pub host: String,
    /// The port to connect to the host on.
    pub port: u16,
    /// The username for authenticating to the host (if applicable).
    pub user: String,
    /// The password for password or keyboard interactive authentication (if applicable).
    pub password: String,
    /// The timeout for the initial socket connection, in seconds.
    pub timeout_socket: u64,
    /// The read size for each read of the transport.
    pub read_size: u16,
    /// The terminal height to set on the transport object (not applicable to all transports).
    pub term_height: u16,
    /// The terminal width to set on the transport object (not applicable to all transports).
    pub term_width: u16,
}

impl TransportArgs {
    /// Return a new instance of `TransportArgs` for the given host, with
    /// the defaults for the rest.
    pub fn new(host: &str) -> (args: Self)
        ensures
            args.host@ == host@,
            args.port == DEFAULT_PORT,
            args.user@.len() == 0,
            args.password@.len() == 0,
            args.timeout_socket == DEFAULT_TIMEOUT_SOCKET_SECONDS,
            args.read_size == DEFAULT_READ_SIZE,
            args.term_height == DEFAULT_TERM_HEIGHT,
            args.term_width == DEFAULT_TERM_WIDTH,
    {
        TransportArgs {
            host: host.to_owned(),
            port: DEFAULT_PORT,
            user: String::new(),
            password: String::new(),
            timeout_socket: DEFAULT_TIMEOUT_SOCKET_SECONDS,
            read_size: DEFAULT_READ_SIZE,
            term_height: DEFAULT_TERM_HEIGHT,
            term_width: DEFAULT_TERM_WIDTH,
        }
    }
}

/// A struct holding ssh specific arguments for transports.
pub struct TransportSSHArgs {
    /// Indicate if ssh strict key checking should be enabled or not.
    pub strict_key: bool,
    /// A path to a private key to use for authentication.
    pub private_key_path: String,
    /// An (optional) passphrase for use with a private key.
    pub private_key_passphrase: String,
    /// The path to an ssh config file to use.
    pub config_file_path: String,
    /// The path to an ssh known hosts file to use.
    pub known_hosts_file_path: String,
    /// Indicate if this is a netconf connection or not (should not be set by users).
    pub netconf_connection: bool,
}

impl Default for TransportSSHArgs {
    fn default() -> (args: Self)
        ensures
            args.strict_key == DEFAULT_SSH_STRICT_KEY,
            args.private_key_path@.len() == 0,
            args.private_key_passphrase@.len() == 0,
            args.config_file_path@.len() == 0,
            args.known_hosts_file_path@.len() == 0,
            !args.netconf_connection,
    {
        TransportSSHArgs {
            strict_key: DEFAULT_SSH_STRICT_KEY,
            private_key_path: String::new(),
            private_key_passphrase: String::new(),
            config_file_path: String::new(),
            known_hosts_file_path: String::new(),
            netconf_connection: false,
        }
    }
}

/// An enum indicating the type of *in channel* authentication to use for a transport.
#[derive(Clone, Copy, Debug, PartialEq, Eq, Structural)]
pub enum InChannelAuthType {
    /// Telnet in channel auth: a username prompt is expected, and no
    /// prompt for the passphrase of an ssh key.
    Telnet,
    /// SSH in channel auth.
    SSH,
}

/// A struct holding data necessary for a `Channel` object to handle in channel authentication for
/// a given transport.
pub struct InChannelAuthData {
    /// Indicates the flavor of in channel authentication.
    pub auth_type: InChannelAuthType,
    /// The user to use for authentication.
    pub user: String,
    /// The password to use for authentication.
    pub password: String,
    /// The ssh passphrase to use for authentication.
    pub private_key_passphrase: String,
}

} // verus!
