use crate::transport::base::{InChannelAuthData, InChannelAuthType, TransportArgs, TransportSSHArgs};
use crate::util::strings::clone_strings;
use vstd::prelude::*;
use vstd::string::StringExecFns;

verus! {

/// The default binary to use for the `System` transport: "ssh".
pub const DEFAULT_SSH_OPEN_BIN: &'static str = "ssh";

/// A struct holding arguments specific to the `System` transport implementation.
pub struct SystemArgs {
    /// The name of the binary that opens the transport: typically "ssh",
    /// but it could be "docker" or "kubectl" (for exec operations) instead.
    pub open_bin: String,
    /// Arguments to pass to the `open_bin`. Where there are none, the
    /// "normal" ssh arguments are built from the arguments of the
    /// transport.
    pub open_args: Vec<String>,
    /// Extra arguments to pass after the "normal" ssh arguments.
    pub extra_args: Vec<String>,
}

impl Default for SystemArgs {
    fn default() -> (args: Self)
        ensures
            args.open_bin@ == DEFAULT_SSH_OPEN_BIN@,
            args.open_args@.len() == 0,
            args.extra_args@.len() == 0,
    {
        SystemArgs {
            open_bin: String::from_str(DEFAULT_SSH_OPEN_BIN),
            open_args: Vec::new(),
            extra_args: Vec::new(),
        }
    }
}

/// The decimal digit `d` as a character.
pub open spec fn digit_char(d: nat) -> char {
    if d == 0 {
        '0'
    } else if d == 1 {
        '1'
    } else if d == 2 {
        '2'
    } else if d == 3 {
        '3'
    } else if d == 4 {
        '4'
    } else if d == 5 {
        '5'
    } else if d == 6 {
        '6'
    } else if d == 7 {
        '7'
    } else if d == 8 {
        '8'
    } else {
        '9'
    }
}

/// The number `n` written in decimal digits.
pub open spec fn decimal_text(n: nat) -> Seq<char>
    decreases n,
{
    if n < 10 {
        seq![digit_char(n)]
    } else {
        decimal_text(n / 10).push(digit_char(n % 10))
    }
}

/// The decimal digit `d` as a string.
fn digit(d: u64) -> (s: &'static str)
    requires
        d < 10,
    ensures
        s@ == seq![digit_char(d as nat)],
{
    proof {
        reveal_strlit("0");
        reveal_strlit("1");
        reveal_strlit("2");
        reveal_strlit("3");
        reveal_strlit("4");
        reveal_strlit("5");
        reveal_strlit("6");
        reveal_strlit("7");
        reveal_strlit("8");
        reveal_strlit("9");
    }
    let s = if d == 0 {
        "0"
    } else if d == 1 {
        "1"
    } else if d == 2 {
        "2"
    } else if d == 3 {
        "3"
    } else if d == 4 {
        "4"
    } else if d == 5 {
        "5"
    } else if d == 6 {
        "6"
    } else if d == 7 {
        "7"
    } else if d == 8 {
        "8"
    } else {
        "9"
    };
    assert(s@ =~= seq![digit_char(d as nat)]);
    s
}

/// The number `n` written in decimal digits.
pub fn decimal(n: u64) -> (text: String)
    ensures
        text@ == decimal_text(n as nat),
    decreases n,
{
    if n < 10 {
        String::from_str(digit(n))
    } else {
        let mut text = decimal(n / 10);
        text.append(digit(n % 10));
        assert(text@ =~= decimal_text((n / 10) as nat).push(digit_char((n % 10) as nat)));
        text
    }
}

/// The arguments of `ssh` for the given arguments of the transport: the
/// host; the port; the socket timeout, as the connect timeout and as the
/// server alive interval; the user, where one is set; the strict host key
/// checking, with the known hosts file where one is set, or without any;
/// the config file, where one is set; the private key, where one is set;
/// and at the end the extra arguments.
pub open spec fn open_args_of(
    args: TransportArgs,
    ssh_args: TransportSSHArgs,
    extra_args: Seq<Seq<char>>,
) -> Seq<Seq<char>> {
    let timeout = decimal_text(args.timeout_socket as nat);
    let base = seq![
        args.host@,
        "-p"@,
        decimal_text(args.port as nat),
        "-o"@,
        "ConnectTimeout="@ + timeout,
        "-o"@,
        "ServerAliveInterval="@ + timeout,
    ];
    let user = if args.user@.len() > 0 {
        seq!["-l"@, args.user@]
    } else {
        Seq::empty()
    };
    let keys = if ssh_args.strict_key {
        seq!["-o"@, "StrictHostKeyChecking=yes"@] + (if ssh_args.known_hosts_file_path@.len() > 0 {
            seq!["-o"@, "UserKnownHostsFile="@ + ssh_args.known_hosts_file_path@]
        } else {
            Seq::empty()
        })
    } else {
        seq!["-o"@, "StrictHostKeyChecking=no"@, "-o"@, "UserKnownHostsFile=/dev/null"@]
    };
    let config = if ssh_args.config_file_path@.len() > 0 {
        seq!["-F"@, ssh_args.config_file_path@]
    } else {
        Seq::empty()
    };
    let key = if ssh_args.private_key_path@.len() > 0 {
        seq!["-i"@, ssh_args.private_key_path@]
    } else {
        Seq::empty()
    };
    base + user + keys + config + key + extra_args
}

/// The texts of a list of strings.
pub open spec fn arg_texts(args: Seq<String>) -> Seq<Seq<char>> {
    args.map_values(|s: String| s@)
}

/// `prefix` followed by `rest`.
fn prefixed(prefix: &str, rest: &str) -> (text: String)
    ensures
        text@ == prefix@ + rest@,
{
    let mut text = String::from_str(prefix);
    text.append(rest);
    text
}

impl SystemArgs {
    /// Sets the arguments that `ssh` is opened with from the arguments of
    /// the transport: see [`open_args_of`].
    pub fn build_open_args(&mut self, args: &TransportArgs, ssh_args: &TransportSSHArgs)
        ensures
            final(self).open_bin == old(self).open_bin,
            final(self).extra_args == old(self).extra_args,
            arg_texts(final(self).open_args@) == open_args_of(
                *args,
                *ssh_args,
                arg_texts(old(self).extra_args@),
            ),
    {
        let timeout = decimal(args.timeout_socket);
        let mut open_args: Vec<String> = Vec::new();
        open_args.push(args.host.clone());
        open_args.push(String::from_str("-p"));
        open_args.push(decimal(args.port as u64));
        open_args.push(String::from_str("-o"));
        open_args.push(prefixed("ConnectTimeout=", timeout.as_str()));
        open_args.push(String::from_str("-o"));
        open_args.push(prefixed("ServerAliveInterval=", timeout.as_str()));
        let ghost base = arg_texts(open_args@);
        if !args.user.as_str().is_empty() {
            open_args.push(String::from_str("-l"));
            open_args.push(args.user.clone());
        }
        let ghost with_user = arg_texts(open_args@);
        if ssh_args.strict_key {
            open_args.push(String::from_str("-o"));
            open_args.push(String::from_str("StrictHostKeyChecking=yes"));
            if !ssh_args.known_hosts_file_path.as_str().is_empty() {
                open_args.push(String::from_str("-o"));
                open_args.push(
                    prefixed("UserKnownHostsFile=", ssh_args.known_hosts_file_path.as_str()),
                );
            }
        } else {
            open_args.push(String::from_str("-o"));
            open_args.push(String::from_str("StrictHostKeyChecking=no"));
            open_args.push(String::from_str("-o"));
            open_args.push(String::from_str("UserKnownHostsFile=/dev/null"));
        }
        let ghost with_keys = arg_texts(open_args@);
        if !ssh_args.config_file_path.as_str().is_empty() {
            open_args.push(String::from_str("-F"));
            open_args.push(ssh_args.config_file_path.clone());
        }
        let ghost with_config = arg_texts(open_args@);
        if !ssh_args.private_key_path.as_str().is_empty() {
            open_args.push(String::from_str("-i"));
            open_args.push(ssh_args.private_key_path.clone());
        }
        let ghost with_key = arg_texts(open_args@);
        let mut extra = clone_strings(self.extra_args.as_slice());
        open_args.append(&mut extra);
        proof {
            let wanted = open_args_of(*args, *ssh_args, arg_texts(self.extra_args@));
            assert(arg_texts(open_args@) =~= with_key + arg_texts(self.extra_args@));
            assert(arg_texts(open_args@) =~= wanted);
        }
        self.open_args = open_args;
    }

    /// The arguments that the transport is opened with: those that are
    /// set, or, where none are set, those that
    /// [`SystemArgs::build_open_args`] builds.
    pub fn prepare_open_args(&mut self, args: &TransportArgs, ssh_args: &TransportSSHArgs)
        ensures
            final(self).open_bin == old(self).open_bin,
            final(self).extra_args == old(self).extra_args,
            old(self).open_args@.len() > 0 ==> final(self).open_args == old(self).open_args,
            old(self).open_args@.len() == 0 ==> arg_texts(final(self).open_args@) == open_args_of(
                *args,
                *ssh_args,
                arg_texts(old(self).extra_args@),
            ),
    {
        if self.open_args.len() == 0 {
            self.build_open_args(args, ssh_args);
        }
    }
}

/// What the channel needs to authenticate over the system transport: SSH
/// authentication, with the user, the password and the passphrase of the
/// private key from the arguments.
pub fn in_channel_auth_data(args: &TransportArgs, ssh_args: &TransportSSHArgs) -> (data:
    InChannelAuthData)
    ensures
        data.auth_type == InChannelAuthType::SSH,
        data.user@ == args.user@,
        data.password@ == args.password@,
        data.private_key_passphrase@ == ssh_args.private_key_passphrase@,
{
    InChannelAuthData {
        auth_type: InChannelAuthType::SSH,
        user: args.user.clone(),
        password: args.password.clone(),
        private_key_passphrase: ssh_args.private_key_passphrase.clone(),
    }
}

} // verus!
