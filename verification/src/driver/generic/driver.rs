use crate::channel::channel::Channel;
use crate::channel::operation::{pattern_texts, Options as ChannelOperationOptions};
use crate::channel::send_input::{SendInput, TIMEOUT_OUT_OF_RANGE};
use crate::channel::write::GetPrompt;
use crate::errors::ScrapliError;
use crate::response::{MultiResponse, Response};
use crate::transport::base::DEFAULT_PORT;
use crate::util::clock::{deadline_of, is_clock_instant, utc_now_micros, OWED_TIMEOUT};
use crate::util::strings::{clone_strings, contains_any, string_from_utf8};
use vstd::prelude::*;
use vstd::string::StringExecFns;
use vstd::utf8::{encode_utf8, valid_utf8};

verus! {

/// The message of the error for `send_commands` without commands.
pub const NO_COMMANDS: &'static str = "send_commands called with empty vec of commands";

/// The message of the error for a result that is not valid UTF-8.
pub const RESULT_NOT_UTF8: &'static str = "invalid utf-8 in result";

/// The message of the error for a prompt that is not valid UTF-8.
pub const PROMPT_NOT_UTF8: &'static str = "invalid utf-8 in prompt";

/// The message of the error for a prompt that could not be fetched begins
/// with this; what the channel said follows.
pub const PROMPT_FETCH_FAILED: &'static str = "error fetching prompt from channel, error: ";

/// `OperationOptions` holds arguments that apply to `Driver` operations (ex: `send_command`).
pub struct OperationOptions {
    /// List of strings that when seen as sub strings in some output
    /// indicate that the operation was a failure.
    pub failed_when_contains: Vec<String>,
    /// Indicates if multi operations (send_commands (plural!)) that
    /// encounter a failure (based on `failed_when_contains` output) should
    /// stop or not.
    pub stop_on_failed: bool,
    /// Channel operation options that are passed (by the driver) down to
    /// the channel during normal operations.
    pub channel_operation_options: ChannelOperationOptions,
}

impl Default for OperationOptions {
    fn default() -> (options: Self)
        ensures
            options.failed_when_contains@.len() == 0,
            !options.stop_on_failed,
            options.channel_operation_options.strip_prompt,
            !options.channel_operation_options.eager,
            options.channel_operation_options.timeout.is_none(),
            options.channel_operation_options.complete_patterns@.len() == 0,
            options.channel_operation_options.interim_prompt_patterns@.len() == 0,
    {
        OperationOptions {
            failed_when_contains: Vec::new(),
            stop_on_failed: false,
            channel_operation_options: ChannelOperationOptions::default(),
        }
    }
}

impl Clone for OperationOptions {
    fn clone(&self) -> (copy: Self)
        ensures
            copy.same_options(*self),
    {
        OperationOptions {
            failed_when_contains: clone_strings(self.failed_when_contains.as_slice()),
            stop_on_failed: self.stop_on_failed,
            channel_operation_options: self.channel_operation_options.clone(),
        }
    }
}

impl OperationOptions {
    /// The two say the same.
    pub open spec fn same_options(self, other: Self) -> bool {
        &&& self.failed_when_contains@ == other.failed_when_contains@
        &&& self.stop_on_failed == other.stop_on_failed
        &&& self.channel_operation_options.strip_prompt
            == other.channel_operation_options.strip_prompt
        &&& self.channel_operation_options.eager == other.channel_operation_options.eager
        &&& self.channel_operation_options.timeout == other.channel_operation_options.timeout
        &&& pattern_texts(self.channel_operation_options.complete_patterns@) == pattern_texts(
            other.channel_operation_options.complete_patterns@,
        )
        &&& pattern_texts(self.channel_operation_options.interim_prompt_patterns@) == pattern_texts(
            other.channel_operation_options.interim_prompt_patterns@,
        )
    }
}

/// Args are standard driver args that are stored with a driver object.
pub struct Args {
    /// The host the driver is connecting to.
    pub host: String,
    /// The port on the host the driver is connecting to.
    pub port: u16,
    /// The list of strings which indicate command failures.
    pub failed_when_contains: Vec<String>,
}

impl Args {
    /// Return a new instance of `Args` for the given host.
    pub fn new(host: &str) -> (args: Self)
        ensures
            args.host@ == host@,
            args.port == DEFAULT_PORT,
            args.failed_when_contains@.len() == 0,
    {
        Args { host: host.to_owned(), port: DEFAULT_PORT, failed_when_contains: Vec::new() }
    }
}

/// Driver, or Generic Driver, offers some basic methods for interacting
/// with a device. It knows nothing about network-y things like privilege
/// levels: it is more of a fancier expect-like interface.
pub struct Driver {
    /// The standard driver args.
    pub args: Args,
    /// The channel the driver interacts with.
    pub channel: Channel,
}

/// One command under way: the response that will record its result, and
/// the send of its input.
pub struct SendCommand {
    /// The response of the command, not yet recorded.
    pub response: Response,
    /// The send of the input on the channel.
    pub sending: SendInput,
}

impl SendCommand {
    /// `r` is what ending the command at the instant `now` with the result
    /// `rb` of its send gives: the response with the result and the times
    /// recorded in it, failed if and only if it was failed and the result
    /// holds one of its failure strings; or, for a result that is not valid
    /// UTF-8, an error.
    pub open spec fn finished_at(self, rb: Seq<u8>, now: i64, r: Result<Response, ScrapliError>) -> bool {
        if valid_utf8(rb) {
            r matches Ok(response) && {
                &&& response.host == self.response.host
                &&& response.port == self.response.port
                &&& response.input == self.response.input
                &&& response.failed_when_contains == self.response.failed_when_contains
                &&& response.start_time == self.response.start_time
                &&& response.end_time == now
                &&& response.elapsed_time == crate::response::elapsed_between(
                    self.response.start_time,
                    now,
                )
                &&& response.raw_result@ == rb
                &&& encode_utf8(response.result@) == rb
                &&& response.failed == (self.response.failed && contains_any(
                    crate::response::decoded(rb),
                    self.response.failed_when_contains@,
                ))
            }
        } else {
            r matches Err(e) && e.details@ == RESULT_NOT_UTF8@
        }
    }

    /// Ends the command at the instant `now` with what the send has
    /// returned: see [`SendCommand::finished_at`].
    pub fn finish_at(self, rb: Vec<u8>, now: i64) -> (r: Result<Response, ScrapliError>)
        ensures
            self.finished_at(rb@, now, r),
    {
        if !Response::can_record(rb.as_slice()) {
            return Err(ScrapliError::new(RESULT_NOT_UTF8));
        }
        let mut response = self.response;
        response.record_at(rb, now);
        proof {
            crate::response::lemma_decoded(rb@, response.result@);
        }
        Ok(response)
    }

    /// Ends the command now with what the send has returned. The clock is
    /// read, and the rest is [`SendCommand::finish_at`] at the instant that
    /// the clock says. A response is owed for every result that is valid
    /// UTF-8.
    pub fn finish(self, rb: Vec<u8>) -> (r: Result<Response, ScrapliError>)
        ensures
            exists|now: i64| is_clock_instant(now) && #[trigger] self.finished_at(rb@, now, r),
            r.is_ok() == valid_utf8(rb@),
    {
        let now = utc_now_micros();
        let r = self.finish_at(rb, now);
        assert(is_clock_instant(now) && self.finished_at(rb@, now, r));
        r
    }
}

/// The settings of an operation of the driver, as plain values: the
/// failure strings, whether a list of commands stops at a failed one, and
/// the settings of the channel operation.
pub struct Settings {
    /// The failure strings of the options.
    pub failed_when_contains: Seq<String>,
    /// Whether a list of commands stops at a failed one.
    pub stop_on_failed: bool,
    /// Whether the prompt is cut out of a result.
    pub strip_prompt: bool,
    /// Whether a send ends with the return.
    pub eager: bool,
    /// The timeout, where one is set.
    pub timeout: Option<u64>,
    /// The texts of the completion patterns.
    pub complete: Seq<Seq<char>>,
    /// The texts of the interim prompt patterns.
    pub interim: Seq<Seq<char>>,
}

/// The settings that the options hold.
pub open spec fn settings_of(options: OperationOptions) -> Settings {
    Settings {
        failed_when_contains: options.failed_when_contains@,
        stop_on_failed: options.stop_on_failed,
        strip_prompt: options.channel_operation_options.strip_prompt,
        eager: options.channel_operation_options.eager,
        timeout: options.channel_operation_options.timeout,
        complete: pattern_texts(options.channel_operation_options.complete_patterns@),
        interim: pattern_texts(options.channel_operation_options.interim_prompt_patterns@),
    }
}

/// The settings of the default options, with the given failure strings.
pub open spec fn default_settings(failed_when_contains: Seq<String>) -> Settings {
    Settings {
        failed_when_contains,
        stop_on_failed: false,
        strip_prompt: true,
        eager: false,
        timeout: None,
        complete: Seq::empty(),
        interim: Seq::empty(),
    }
}

/// The strings that tell a failed command: those of the options, or those
/// of the driver where the options have none.
pub open spec fn effective_failed_when_contains(options: Seq<String>, driver: Seq<String>) -> Seq<
    String,
> {
    if options.len() == 0 {
        driver
    } else {
        options
    }
}

impl Driver {
    /// Create a new (generic) Driver instance.
    pub fn new(args: Args, channel: Channel) -> (driver: Self)
        ensures
            driver.args == args,
            driver.channel == channel,
    {
        Driver { args, channel }
    }

    /// Asks the device for its current prompt. What the operation returns
    /// becomes the prompt as text by [`Driver::prompt_text`].
    pub fn get_prompt(&self) -> (asking: GetPrompt)
        ensures
            asking.phase == crate::channel::write::GetPromptPhase::Start,
            asking.reading.is_fresh(crate::channel::read_until::Condition::Prompt),
    {
        self.channel.get_prompt()
    }

    /// The prompt as text, from how asking the channel for it ended. An
    /// error of the channel is passed on under a message that says what
    /// was being done; a prompt that is not valid UTF-8 is an error too.
    pub fn prompt_text(fetched: Result<Vec<u8>, ScrapliError>) -> (r: Result<String, ScrapliError>)
        ensures
            match fetched {
                Ok(bytes) => if valid_utf8(bytes@) {
                    r matches Ok(prompt) && encode_utf8(prompt@) == bytes@
                } else {
                    r matches Err(e) && e.details@ == PROMPT_NOT_UTF8@
                },
                Err(err) => r matches Err(e) && e.details@ == PROMPT_FETCH_FAILED@ + err.details@,
            },
    {
        match fetched {
            Ok(bytes) => match string_from_utf8(bytes) {
                Some(prompt) => Ok(prompt),
                None => Err(ScrapliError::new(PROMPT_NOT_UTF8)),
            },
            Err(err) => {
                let mut details = String::from_str(PROMPT_FETCH_FAILED);
                details.append(err.details.as_str());
                Err(ScrapliError { details })
            },
        }
    }

    /// `op` is the command `command` at its start at the instant `now`: a
    /// response for it that counts as failed and holds no result, with the
    /// host and port of the driver, the failure strings of the settings
    /// (those of the driver where the settings have none) and `now` as its
    /// times; and a send of its bytes that has done nothing yet, with the
    /// settings of the channel operation and the deadline `deadline`.
    pub open spec fn is_command_at(
        self,
        op: SendCommand,
        command: Seq<char>,
        settings: Settings,
        now: i64,
        deadline: i64,
    ) -> bool {
        &&& op.response.input@ == command
        &&& op.response.host@ == self.args.host@
        &&& op.response.port == self.args.port
        &&& op.response.failed_when_contains@ == effective_failed_when_contains(
            settings.failed_when_contains,
            self.args.failed_when_contains@,
        )
        &&& op.response.failed
        &&& op.response.raw_result@.len() == 0
        &&& op.response.result@.len() == 0
        &&& op.response.start_time == now
        &&& op.response.end_time == now
        &&& op.response.elapsed_time == 0
        &&& op.sending.is_start_of(
            encode_utf8(command),
            settings.strip_prompt,
            settings.eager,
            settings.interim,
            deadline,
        )
    }

    /// `r` is what starting to send `command` at the instant `now` gives:
    /// the command at its start, whose send gives up once the timeout of
    /// the settings, or else that of the channel, has passed; or, if and
    /// only if the clock cannot hold that deadline, an error.
    pub open spec fn command_started_at(
        self,
        command: Seq<char>,
        settings: Settings,
        now: i64,
        r: Result<SendCommand, ScrapliError>,
    ) -> bool {
        match deadline_of(now, self.channel.effective_timeout(settings.timeout)) {
            Some(deadline) => r matches Ok(op) && self.is_command_at(
                op,
                command,
                settings,
                now,
                deadline,
            ),
            None => r matches Err(e) && e.details@ == TIMEOUT_OUT_OF_RANGE@,
        }
    }

    /// Starts sending a command to the device at the instant `now`, with
    /// the given options: see [`Driver::command_started_at`].
    pub fn send_command_with_options_at(
        &self,
        command: &str,
        options: &OperationOptions,
        now: i64,
    ) -> (r: Result<SendCommand, ScrapliError>)
        ensures
            self.command_started_at(command@, settings_of(*options), now, r),
    {
        let failed_when_contains = if options.failed_when_contains.len() == 0 {
            clone_strings(self.args.failed_when_contains.as_slice())
        } else {
            clone_strings(options.failed_when_contains.as_slice())
        };
        let response = Response::new_at(
            command,
            self.args.host.as_str(),
            self.args.port,
            failed_when_contains,
            now,
        );
        match self.channel.send_input_bytes_at(
            command.as_bytes(),
            &options.channel_operation_options,
            now,
        ) {
            Ok(sending) => Ok(SendCommand { response, sending }),
            Err(err) => Err(err),
        }
    }

    /// Starts sending a command to the device now, with the given options.
    /// The failure strings of the options apply, or those of the driver
    /// where the options have none. The clock is read, and the rest is
    /// [`Driver::send_command_with_options_at`] at the instant that the
    /// clock says. The command is owed where the timeout is not longer than
    /// [`OWED_TIMEOUT`].
    pub fn send_command_with_options(&self, command: &str, options: &OperationOptions) -> (r:
        Result<SendCommand, ScrapliError>)
        ensures
            exists|now: i64|
                is_clock_instant(now) && #[trigger] self.command_started_at(
                    command@,
                    settings_of(*options),
                    now,
                    r,
                ),
            self.channel.effective_timeout(options.channel_operation_options.timeout)
                <= OWED_TIMEOUT ==> r.is_ok(),
    {
        let now = utc_now_micros();
        let r = self.send_command_with_options_at(command, options, now);
        assert(is_clock_instant(now) && self.command_started_at(
            command@,
            settings_of(*options),
            now,
            r,
        ));
        r
    }

    /// The default options, with the failure strings of the driver.
    fn default_options(&self) -> (options: OperationOptions)
        ensures
            settings_of(options) == default_settings(self.args.failed_when_contains@),
    {
        let mut options = OperationOptions::default();
        options.failed_when_contains = clone_strings(self.args.failed_when_contains.as_slice());
        assert(pattern_texts(options.channel_operation_options.interim_prompt_patterns@)
            =~= Seq::<Seq<char>>::empty());
        assert(pattern_texts(options.channel_operation_options.complete_patterns@)
            =~= Seq::<Seq<char>>::empty());
        options
    }

    /// Starts sending a command to the device now, with the failure
    /// strings of the driver and default options otherwise. The command is
    /// owed where the timeout of the channel is not longer than
    /// [`OWED_TIMEOUT`].
    pub fn send_command(&self, command: &str) -> (r: Result<SendCommand, ScrapliError>)
        ensures
            exists|now: i64|
                is_clock_instant(now) && #[trigger] self.command_started_at(
                    command@,
                    default_settings(self.args.failed_when_contains@),
                    now,
                    r,
                ),
            self.channel.args.timeout_ops <= OWED_TIMEOUT ==> r.is_ok(),
    {
        let options = self.default_options();
        let now = utc_now_micros();
        let r = self.send_command_with_options_at(command, &options, now);
        assert(is_clock_instant(now) && self.command_started_at(
            command@,
            default_settings(self.args.failed_when_contains@),
            now,
            r,
        ));
        r
    }
}

/// Several commands under way, one after the other: the commands, the
/// index of the one that is being sent, its response, and the responses
/// of those before it.
pub struct SendCommands {
    /// The commands to send.
    pub commands: Vec<String>,
    /// The options of the operation.
    pub options: OperationOptions,
    /// The index of the command that is being sent.
    pub idx: usize,
    /// The response of the command that is being sent, not yet recorded.
    pub response: Response,
    /// The responses of the commands before it.
    pub multi: MultiResponse,
}

/// How a step of [`SendCommands`] ends.
pub enum CommandsStep {
    /// The next command is to be sent; once that send has ended,
    /// [`SendCommands::record`] takes its result.
    Send(SendCommands, SendInput),
    /// All is done.
    Done(MultiResponse),
    /// The operation failed.
    Fail(ScrapliError),
}

/// The texts of a list of strings.
pub open spec fn texts(strings: Seq<String>) -> Seq<Seq<char>> {
    strings.map_values(|s: String| s@)
}

impl SendCommands {
    /// The operation is at one of its commands.
    pub open spec fn well_formed(self) -> bool {
        self.idx < self.commands@.len()
    }

    /// Beginning the command at `idx` of `commands` at the instant `now`
    /// gives `step`: the command under way, with the commands, the options
    /// and the responses so far as given; or, if and only if the clock
    /// cannot hold the deadline of its send, an error.
    pub open spec fn begun_at(
        driver: Driver,
        commands: Vec<String>,
        options: OperationOptions,
        idx: usize,
        multi: MultiResponse,
        now: i64,
        step: CommandsStep,
    ) -> bool {
        match deadline_of(
            now,
            driver.channel.effective_timeout(options.channel_operation_options.timeout),
        ) {
            Some(deadline) => step matches CommandsStep::Send(next, sending) && {
                &&& next.commands == commands
                &&& next.options == options
                &&& next.idx == idx
                &&& next.multi == multi
                &&& driver.is_command_at(
                    SendCommand { response: next.response, sending },
                    commands@[idx as int]@,
                    settings_of(options),
                    now,
                    deadline,
                )
            },
            None => step matches CommandsStep::Fail(e) && e.details@ == TIMEOUT_OUT_OF_RANGE@,
        }
    }

    /// Begins the command at `idx` of `commands` at the instant `now`.
    fn begin_at(
        driver: &Driver,
        commands: Vec<String>,
        options: OperationOptions,
        idx: usize,
        multi: MultiResponse,
        now: i64,
    ) -> (step: CommandsStep)
        requires
            idx < commands@.len(),
        ensures
            Self::begun_at(*driver, commands, options, idx, multi, now, step),
            step matches CommandsStep::Send(next, _) ==> next.well_formed(),
    {
        let started = driver.send_command_with_options_at(commands[idx].as_str(), &options, now);
        match started {
            Ok(op) => {
                let next = SendCommands { commands, options, idx, response: op.response, multi };
                CommandsStep::Send(next, op.sending)
            },
            Err(err) => CommandsStep::Fail(err),
        }
    }

    /// Whether the result `rb` makes the current command a failed one: the
    /// response counts as failed and the result holds one of its failure
    /// strings.
    pub open spec fn fails_with(self, rb: Seq<u8>) -> bool {
        self.response.failed && contains_any(
            crate::response::decoded(rb),
            self.response.failed_when_contains@,
        )
    }

    /// Whether the operation ends with the current command, given its
    /// result `rb`: it is the last one, or it is a failed one and the
    /// options say to stop on failure.
    pub open spec fn ends_with(self, rb: Seq<u8>) -> bool {
        self.idx + 1 == self.commands@.len() || (self.options.stop_on_failed && self.fails_with(
            rb,
        ))
    }

    /// `step` is what taking the result `rb` of the current command at the
    /// instant `now` gives.
    ///
    /// A result that is not valid UTF-8 fails the operation. Else the
    /// result is recorded in the response of the command, and the response
    /// joins those before it, with `now` as the end of both. The operation
    /// is done with them where it ends with this command; else the next
    /// command begins at `now`, and only then can the clock fail it.
    pub open spec fn recorded_at(self, driver: Driver, rb: Seq<u8>, now: i64, step: CommandsStep) -> bool {
        if !valid_utf8(rb) {
            step matches CommandsStep::Fail(e) && e.details@ == RESULT_NOT_UTF8@
        } else if self.ends_with(rb) {
            step matches CommandsStep::Done(multi) && self.recorded(rb, now, multi)
        } else {
            match step {
                CommandsStep::Send(next, _) => self.recorded(rb, now, next.multi)
                    && Self::begun_at(
                    driver,
                    self.commands,
                    self.options,
                    (self.idx + 1) as usize,
                    next.multi,
                    now,
                    step,
                ),
                CommandsStep::Done(_) => false,
                CommandsStep::Fail(e) => e.details@ == TIMEOUT_OUT_OF_RANGE@ && deadline_of(
                    now,
                    driver.channel.effective_timeout(
                        self.options.channel_operation_options.timeout,
                    ),
                ).is_none(),
            }
        }
    }

    /// `multi` is what the responses before the current command become
    /// once the result `rb` of the current command is recorded at the
    /// instant `now`: the same, with one more response, which holds `rb`
    /// and is failed as [`SendCommands::fails_with`] says; both end at
    /// `now`.
    pub open spec fn recorded(self, rb: Seq<u8>, now: i64, multi: MultiResponse) -> bool {
        &&& multi.host == self.multi.host
        &&& multi.start_time == self.multi.start_time
        &&& multi.end_time == now
        &&& multi.elapsed_time == crate::response::elapsed_between(self.multi.start_time, now)
        &&& multi.failed == (self.multi.failed || self.fails_with(rb))
        &&& multi.responses@.len() == self.multi.responses@.len() + 1
        &&& multi.responses@.take(self.multi.responses@.len() as int) == self.multi.responses@
        &&& {
            let response = multi.responses@.last();
            &&& response.host == self.response.host
            &&& response.port == self.response.port
            &&& response.input == self.response.input
            &&& response.failed_when_contains == self.response.failed_when_contains
            &&& response.start_time == self.response.start_time
            &&& response.end_time == now
            &&& response.raw_result@ == rb
            &&& encode_utf8(response.result@) == rb
            &&& response.failed == self.fails_with(rb)
        }
    }

    /// Takes the result `rb` of the send of the current command at the
    /// instant `now`: see [`SendCommands::recorded_at`].
    pub fn record_at(self, driver: &Driver, rb: Vec<u8>, now: i64) -> (step: CommandsStep)
        requires
            self.well_formed(),
        ensures
            self.recorded_at(*driver, rb@, now, step),
            step matches CommandsStep::Send(next, _) ==> next.well_formed(),
    {
        if !Response::can_record(rb.as_slice()) {
            return CommandsStep::Fail(ScrapliError::new(RESULT_NOT_UTF8));
        }
        let mut response = self.response;
        let mut multi = self.multi;
        response.record_at(rb, now);
        proof {
            crate::response::lemma_decoded(rb@, response.result@);
        }
        let failed = response.failed;
        multi.record_response_at(response, now);
        assert(multi.responses@.take(self.multi.responses@.len() as int) =~= self.multi.responses@);
        assert(multi.responses@.last() == response);
        assert(self.recorded(rb@, now, multi));
        let count = self.commands.len();
        if self.idx + 1 == count || (self.options.stop_on_failed && failed) {
            return CommandsStep::Done(multi);
        }
        Self::begin_at(driver, self.commands, self.options, self.idx + 1, multi, now)
    }

    /// Takes the result `rb` of the send of the current command, now. The
    /// clock is read, and the rest is [`SendCommands::record_at`] at the
    /// instant that the clock says. For a result that is valid UTF-8 the
    /// operation goes on, or is done, where it ends with this command or
    /// the timeout is not longer than [`OWED_TIMEOUT`].
    pub fn record(self, driver: &Driver, rb: Vec<u8>) -> (step: CommandsStep)
        requires
            self.well_formed(),
        ensures
            exists|now: i64|
                is_clock_instant(now) && #[trigger] self.recorded_at(*driver, rb@, now, step),
            valid_utf8(rb@) && (self.ends_with(rb@) || driver.channel.effective_timeout(
                self.options.channel_operation_options.timeout,
            ) <= OWED_TIMEOUT) ==> !(step is Fail),
            step matches CommandsStep::Send(next, _) ==> next.well_formed(),
    {
        let now = utc_now_micros();
        let step = self.record_at(driver, rb, now);
        assert(is_clock_instant(now) && self.recorded_at(*driver, rb@, now, step));
        step
    }
}

impl Driver {
    /// `step` is what starting to send `commands` at the instant `now`
    /// with the given settings gives: an error for an empty list; else the
    /// first command under way, with nothing recorded yet; or, if and only
    /// if the clock cannot hold the deadline of its send, an error.
    pub open spec fn commands_started_at(
        self,
        commands: Seq<&str>,
        settings: Settings,
        now: i64,
        step: CommandsStep,
    ) -> bool {
        if commands.len() == 0 {
            step matches CommandsStep::Fail(e) && e.details@ == NO_COMMANDS@
        } else {
            match deadline_of(now, self.channel.effective_timeout(settings.timeout)) {
                Some(deadline) => step matches CommandsStep::Send(next, sending) && {
                    &&& next.well_formed()
                    &&& next.idx == 0
                    &&& next.commands@.len() == commands.len()
                    &&& forall|i: int|
                        0 <= i < commands.len() ==> (#[trigger] next.commands@[i])@
                            == commands[i]@
                    &&& settings_of(next.options) == settings
                    &&& next.multi.host@ == self.args.host@
                    &&& next.multi.start_time == now
                    &&& next.multi.end_time == now
                    &&& next.multi.elapsed_time == 0
                    &&& next.multi.responses@.len() == 0
                    &&& !next.multi.failed
                    &&& self.is_command_at(
                        SendCommand { response: next.response, sending },
                        commands[0]@,
                        settings,
                        now,
                        deadline,
                    )
                },
                None => step matches CommandsStep::Fail(e) && e.details@
                    == TIMEOUT_OUT_OF_RANGE@,
            }
        }
    }

    /// Starts sending a list of commands to the device at the instant
    /// `now`, with the given options: see [`Driver::commands_started_at`].
    pub fn send_commands_with_options_at(
        &self,
        commands: &[&str],
        options: &OperationOptions,
        now: i64,
    ) -> (step: CommandsStep)
        ensures
            self.commands_started_at(commands@, settings_of(*options), now, step),
    {
        if commands.len() == 0 {
            return CommandsStep::Fail(ScrapliError::new(NO_COMMANDS));
        }
        let mut owned: Vec<String> = Vec::new();
        let mut i: usize = 0;
        while i < commands.len()
            invariant
                i <= commands@.len(),
                owned@.len() == i,
                forall|j: int| 0 <= j < i ==> (#[trigger] owned@[j])@ == commands@[j]@,
            decreases commands@.len() - i,
        {
            owned.push(commands[i].to_owned());
            i += 1;
        }
        let multi = MultiResponse::new_at(self.args.host.as_str(), now);
        SendCommands::begin_at(self, owned, options.clone(), 0, multi, now)
    }

    /// Starts sending a list of commands to the device now, with the given
    /// options. An empty list is an error. Else the first command begins;
    /// the commands go one after the other, each recorded in a response of
    /// its own. The clock is read, and the rest is
    /// [`Driver::send_commands_with_options_at`] at the instant that the
    /// clock says. The first command is owed where the list is not empty
    /// and the timeout is not longer than [`OWED_TIMEOUT`].
    pub fn send_commands_with_options(&self, commands: &[&str], options: &OperationOptions) -> (step:
        CommandsStep)
        ensures
            exists|now: i64|
                is_clock_instant(now) && #[trigger] self.commands_started_at(
                    commands@,
                    settings_of(*options),
                    now,
                    step,
                ),
            commands@.len() > 0 && self.channel.effective_timeout(
                options.channel_operation_options.timeout,
            ) <= OWED_TIMEOUT ==> step is Send,
    {
        let now = utc_now_micros();
        let step = self.send_commands_with_options_at(commands, options, now);
        assert(is_clock_instant(now) && self.commands_started_at(
            commands@,
            settings_of(*options),
            now,
            step,
        ));
        step
    }

    /// Starts sending a list of commands to the device now, with the
    /// failure strings of the driver and default options otherwise. The
    /// first command is owed where the list is not empty and the timeout of
    /// the channel is not longer than [`OWED_TIMEOUT`].
    pub fn send_commands(&self, commands: &[&str]) -> (step: CommandsStep)
        ensures
            exists|now: i64|
                is_clock_instant(now) && #[trigger] self.commands_started_at(
                    commands@,
                    default_settings(self.args.failed_when_contains@),
                    now,
                    step,
                ),
            commands@.len() > 0 && self.channel.args.timeout_ops <= OWED_TIMEOUT ==> step is Send,
    {
        let options = self.default_options();
        let now = utc_now_micros();
        let step = self.send_commands_with_options_at(commands, &options, now);
        assert(is_clock_instant(now) && self.commands_started_at(
            commands@,
            default_settings(self.args.failed_when_contains@),
            now,
            step,
        ));
        step
    }
}

} // verus!
