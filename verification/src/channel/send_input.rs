use crate::channel::channel::Channel;
use crate::channel::constants::NEW_LINE_BYTE;
use crate::channel::operation::{any_matches, clone_patterns, pattern_texts, Action, Options};
use crate::channel::patterns::{pattern_matches, without_matches, Pattern};
use crate::channel::read_until::{any_prompt_matches, first_linefeed, joined, lemma_first_linefeed_at};
use crate::errors::ScrapliError;
use crate::util::bytes::{is_subsequence, trim_cutset, trim_cutset_right, trimmed, trimmed_right};
use crate::util::clock::{
    deadline_after,
    deadline_of,
    is_clock_instant,
    utc_now_micros,
    OWED_TIMEOUT,
};
use vstd::prelude::*;
use vstd::slice::slice_subrange;
use vstd::string::StringSliceAdditionalSpecFns;
use vstd::utf8::encode_utf8;

verus! {

/// The message of the error for an operation that ran past its deadline.
pub const TIMED_OUT: &'static str = "timed out sending input to device";

/// The message of the error for a timeout that the clock cannot hold.
pub const TIMEOUT_OUT_OF_RANGE: &'static str =
    "failed adding the operation timeout to the current time, this shouldn't happen";

/// The message of the error for an operation that is asked to go on after
/// it has ended.
pub const OPERATION_OVER: &'static str = "the operation has ended already";

/// The bytes that are trimmed from the end of each line of output: the
/// ASCII white space.
pub open spec fn line_cutset() -> Seq<u8> {
    seq![0x20u8, 0x09u8, 0x0au8, 0x0bu8, 0x0cu8, 0x0du8]
}

/// The lines of `b`, split at its linefeeds, each trimmed on the right and
/// ended by a linefeed again, the last line too.
pub open spec fn clean_lines(b: Seq<u8>) -> Seq<u8>
    decreases b.len(),
{
    let at = first_linefeed(b);
    if at < 0 || at >= b.len() {
        trimmed_right(b, line_cutset()).push(NEW_LINE_BYTE)
    } else {
        trimmed_right(b.take(at), line_cutset()) + seq![NEW_LINE_BYTE] + clean_lines(
            b.skip(at + 1),
        )
    }
}

/// The bytes that are trimmed from both ends of the output of an
/// operation: the linefeed and the bytes of the return character.
pub open spec fn output_cutset(return_char: Seq<u8>) -> Seq<u8> {
    seq![NEW_LINE_BYTE] + return_char
}

/// The result of an operation whose reads gave `b`: its lines cleaned, the
/// prompt cut out where `strip_prompt` asks for it, and the ends trimmed.
pub open spec fn processed_output(
    b: Seq<u8>,
    strip_prompt: bool,
    prompt: Seq<char>,
    return_char: Seq<u8>,
) -> Seq<u8> {
    let lines = clean_lines(b);
    let stripped = if strip_prompt {
        without_matches(prompt, lines)
    } else {
        lines
    };
    trimmed(stripped, output_cutset(return_char))
}

/// The lines of `b`, each trimmed on the right and ended by a linefeed.
pub fn clean_output_lines(b: &[u8]) -> (out: Vec<u8>)
    ensures
        out@ == clean_lines(b@),
{
    let cutset: Vec<u8> = vec![0x20u8, 0x09u8, 0x0au8, 0x0bu8, 0x0cu8, 0x0du8];
    assert(cutset@ =~= line_cutset());
    let mut out: Vec<u8> = Vec::new();
    let mut start: usize = 0;
    let mut i: usize = 0;
    assert(b@.skip(0) =~= b@);
    assert(out@ + clean_lines(b@) =~= clean_lines(b@));
    while i < b.len()
        invariant
            start <= i <= b@.len(),
            cutset@ == line_cutset(),
            forall|j: int| start <= j < i ==> b@[j] != NEW_LINE_BYTE,
            clean_lines(b@) == out@ + clean_lines(b@.skip(start as int)),
        decreases b@.len() - i,
    {
        if b[i] == NEW_LINE_BYTE {
            let line = trim_cutset_right(slice_subrange(b, start, i), cutset.as_slice());
            proof {
                let rest = b@.skip(start as int);
                assert forall|j: int| 0 <= j < i - start implies rest[j] != NEW_LINE_BYTE by {
                    assert(rest[j] == b@[start + j]);
                }
                lemma_first_linefeed_at(rest, i - start);
                assert(rest.take(i - start) =~= b@.subrange(start as int, i as int));
                assert(rest.skip(i - start + 1) =~= b@.skip(i + 1));
                assert(out@ + (line@ + seq![NEW_LINE_BYTE] + clean_lines(b@.skip(i + 1))) =~= (out@
                    + line@).push(NEW_LINE_BYTE) + clean_lines(b@.skip(i + 1)));
            }
            out.extend_from_slice(line);
            out.push(NEW_LINE_BYTE);
            start = i + 1;
        }
        i += 1;
    }
    let line = trim_cutset_right(slice_subrange(b, start, b.len()), cutset.as_slice());
    proof {
        let rest = b@.skip(start as int);
        assert forall|j: int| 0 <= j < rest.len() implies rest[j] != NEW_LINE_BYTE by {
            assert(rest[j] == b@[start + j]);
        }
        lemma_first_linefeed_at(rest, rest.len() as int);
        assert(rest =~= b@.subrange(start as int, b@.len() as int));
    }
    proof {
        assert(clean_lines(b@.skip(start as int)) == line@.push(NEW_LINE_BYTE));
        assert(out@ + line@.push(NEW_LINE_BYTE) =~= (out@ + line@).push(NEW_LINE_BYTE));
    }
    out.extend_from_slice(line);
    out.push(NEW_LINE_BYTE);
    out
}

/// Where a send of one input stands.
#[derive(Clone, Copy, Debug, PartialEq, Eq, Structural)]
pub enum SendInputPhase {
    /// The input is still to be written.
    Start,
    /// The input was written; its echo is awaited.
    Echo,
    /// The return was written, and the send is eager: the input itself is
    /// the result.
    Eager,
    /// The return was written; the prompt is awaited.
    Prompt,
    /// The send has ended.
    Over,
}

/// Sending one input to the device: write it, wait until the device has
/// echoed it, write the return, wait for the prompt, clean up the output.
pub struct SendInput {
    /// The input to send.
    pub input: Vec<u8>,
    /// Whether the prompt is cut out of the result.
    pub strip_prompt: bool,
    /// Whether the send ends with the return, without waiting for a prompt.
    pub eager: bool,
    /// Patterns that count as the prompt, beside the prompt pattern.
    pub interim_prompt_patterns: Vec<Pattern>,
    /// The instant at which the send gives up, in microseconds.
    pub deadline: i64,
    /// Where the send stands.
    pub phase: SendInputPhase,
    /// What was read in this phase.
    pub rb: Vec<u8>,
    /// Whether what this phase waits for has been seen.
    pub found: bool,
    /// Whether this phase has asked for a read already.
    pub polled: bool,
}

/// The prompt pattern, or one of the interim prompt patterns, matches in
/// `rb`.
pub open spec fn prompt_seen(prompt: Seq<char>, interim: Seq<Seq<char>>, rb: Seq<u8>) -> bool {
    pattern_matches(prompt, rb) || any_matches(interim, rb)
}

impl SendInput {
    /// A send of `input` with the given options that has done nothing
    /// yet.
    pub open spec fn is_start(self, input: Seq<u8>, options: Options, deadline: i64) -> bool {
        self.is_start_of(
            input,
            options.strip_prompt,
            options.eager,
            pattern_texts(options.interim_prompt_patterns@),
            deadline,
        )
    }

    /// A send of `input` with the given settings that has done nothing
    /// yet.
    pub open spec fn is_start_of(
        self,
        input: Seq<u8>,
        strip_prompt: bool,
        eager: bool,
        interim: Seq<Seq<char>>,
        deadline: i64,
    ) -> bool {
        &&& self.input@ == input
        &&& self.strip_prompt == strip_prompt
        &&& self.eager == eager
        &&& pattern_texts(self.interim_prompt_patterns@) == interim
        &&& self.deadline == deadline
        &&& self.phase == SendInputPhase::Start
        &&& self.rb@.len() == 0
        &&& self.found == (input.len() == 0)
        &&& !self.polled
    }

    /// The settings of the send, which no step changes.
    pub open spec fn same_send(self, other: Self) -> bool {
        &&& self.input == other.input
        &&& self.strip_prompt == other.strip_prompt
        &&& self.eager == other.eager
        &&& self.interim_prompt_patterns == other.interim_prompt_patterns
        &&& self.deadline == other.deadline
    }

    /// The pause before the next read of this phase: none before the
    /// first, an eighth of the read delay before the others.
    pub open spec fn pause(self, read_delay: u64) -> u64 {
        if self.polled {
            read_delay / 8
        } else {
            0
        }
    }

    /// Takes in the chunk that was read. While the echo is awaited the
    /// chunk joins the read buffer, and the echo is there once all bytes of
    /// the input have come, in order. While the prompt is awaited the part
    /// of the chunk that is searched joins the read buffer, and the prompt
    /// is there once the prompt pattern or an interim prompt pattern
    /// matches. An empty chunk, and a chunk in any other phase, changes
    /// nothing.
    pub fn receive(&mut self, channel: &Channel, nb: &[u8])
        ensures
            final(self).same_send(*old(self)),
            final(self).phase == old(self).phase,
            final(self).polled == old(self).polled,
            old(self).phase == SendInputPhase::Echo && nb@.len() > 0 ==> final(self).rb@ == old(
                self,
            ).rb@ + nb@ && final(self).found == is_subsequence(old(self).input@, final(self).rb@),
            old(self).phase == SendInputPhase::Prompt && nb@.len() > 0 ==> final(self).rb@ == old(
                self,
            ).rb@ + crate::channel::read_until::search_window(
                nb@,
                channel.args.prompt_search_depth as int,
            ) && final(self).found == prompt_seen(
                channel.args.prompt_pattern@,
                pattern_texts(old(self).interim_prompt_patterns@),
                final(self).rb@,
            ),
            (old(self).phase != SendInputPhase::Echo && old(self).phase != SendInputPhase::Prompt)
                || nb@.len() == 0 ==> final(self).rb == old(self).rb && final(self).found == old(
                self,
            ).found,
    {
        if nb.len() == 0 {
            return ;
        }
        match self.phase {
            SendInputPhase::Echo => {
                let (found, rb) = channel._read_and_check_for_fuzzy(
                    self.rb.as_slice(),
                    nb,
                    self.input.as_slice(),
                );
                self.rb = rb;
                self.found = found;
            },
            SendInputPhase::Prompt => {
                let (found, rb) = channel._read_and_check_for_prompt(self.rb.as_slice(), nb);
                let interim = any_prompt_matches(
                    self.interim_prompt_patterns.as_slice(),
                    rb.as_slice(),
                );
                self.rb = rb;
                self.found = found || interim;
            },
            _ => {},
        }
    }

    /// What asking the send `self` at the instant `now` leads to: the state
    /// `next` and the action `action`. [`SendInput::poll_at`] says it in
    /// words.
    pub open spec fn polled_at(self, next: Self, channel: Channel, now: i64, action: Action) -> bool {
        &&& next.same_send(self)
        &&& match self.phase {
            SendInputPhase::Start => {
                &&& action matches Action::Write(bytes) && bytes@ == self.input@
                &&& next.phase == SendInputPhase::Echo
                &&& next.rb == self.rb
                &&& next.found == self.found
                &&& next.polled == self.polled
            },
            SendInputPhase::Echo => if self.found {
                &&& action matches Action::Write(bytes) && bytes@
                    == encode_utf8(channel.args.return_char@)
                &&& next.phase == (if self.eager {
                    SendInputPhase::Eager
                } else {
                    SendInputPhase::Prompt
                })
                &&& next.rb@.len() == 0
                &&& !next.found
                &&& !next.polled
            } else if self.deadline <= now {
                &&& action matches Action::Fail(e) && e.details@ == TIMED_OUT@
                &&& next.phase == SendInputPhase::Over
            } else {
                &&& action matches Action::Read(pause) && pause == self.pause(
                    channel.args.read_delay,
                )
                &&& next.phase == SendInputPhase::Echo
                &&& next.rb == self.rb
                &&& !next.found
                &&& next.polled
            },
            SendInputPhase::Eager => {
                &&& action matches Action::Done(result) && result@ == self.input@
                &&& next.phase == SendInputPhase::Over
            },
            SendInputPhase::Prompt => if self.found {
                &&& action matches Action::Done(result) && result@ == processed_output(
                    self.rb@,
                    self.strip_prompt,
                    channel.args.prompt_pattern@,
                    encode_utf8(channel.args.return_char@),
                )
                &&& next.phase == SendInputPhase::Over
            } else if self.deadline <= now {
                &&& action matches Action::Fail(e) && e.details@ == TIMED_OUT@
                &&& next.phase == SendInputPhase::Over
            } else {
                &&& action matches Action::Read(pause) && pause == self.pause(
                    channel.args.read_delay,
                )
                &&& next.phase == SendInputPhase::Prompt
                &&& next.rb == self.rb
                &&& !next.found
                &&& next.polled
            },
            SendInputPhase::Over => {
                &&& action matches Action::Fail(e) && e.details@ == OPERATION_OVER@
                &&& next.phase == SendInputPhase::Over
            },
        }
    }

    /// What to do next, at the instant `now`.
    ///
    /// At the start: write the input. While the echo is awaited: once it
    /// is there, write the return; else fail if the deadline has come; else
    /// read. After the return of an eager send: done, with the input as
    /// the result. While the prompt is awaited: once it is there, done,
    /// with the processed output; else fail if the deadline has come; else
    /// read. After the end: fail.
    pub fn poll_at(&mut self, channel: &Channel, now: i64) -> (action: Action)
        ensures
            old(self).polled_at(*final(self), *channel, now, action),
    {
        match self.phase {
            SendInputPhase::Start => {
                self.phase = SendInputPhase::Echo;
                Action::Write(joined(self.input.as_slice(), &[]))
            },
            SendInputPhase::Echo => {
                if self.found {
                    self.phase = if self.eager {
                        SendInputPhase::Eager
                    } else {
                        SendInputPhase::Prompt
                    };
                    self.rb = Vec::new();
                    self.found = false;
                    self.polled = false;
                    Action::Write(channel.write_return())
                } else {
                    self.wait(channel, now)
                }
            },
            SendInputPhase::Eager => {
                self.phase = SendInputPhase::Over;
                Action::Done(joined(self.input.as_slice(), &[]))
            },
            SendInputPhase::Prompt => {
                if self.found {
                    self.phase = SendInputPhase::Over;
                    Action::Done(channel.process_output(self.rb.as_slice(), self.strip_prompt))
                } else {
                    self.wait(channel, now)
                }
            },
            SendInputPhase::Over => Action::Fail(ScrapliError::new(OPERATION_OVER)),
        }
    }

    /// Another read, unless the deadline has come.
    fn wait(&mut self, channel: &Channel, now: i64) -> (action: Action)
        ensures
            final(self).same_send(*old(self)),
            final(self).rb == old(self).rb,
            final(self).found == old(self).found,
            old(self).deadline <= now ==> final(self).phase == SendInputPhase::Over && (
            action matches Action::Fail(e) && e.details@ == TIMED_OUT@),
            old(self).deadline > now ==> final(self).phase == old(self).phase && final(self).polled
                && (action matches Action::Read(pause) && pause == old(self).pause(
                channel.args.read_delay,
            )),
    {
        if self.deadline <= now {
            self.phase = SendInputPhase::Over;
            return Action::Fail(ScrapliError::new(TIMED_OUT));
        }
        let pause: u64 = if self.polled {
            channel.args.read_delay / 8
        } else {
            0
        };
        self.polled = true;
        Action::Read(pause)
    }

    /// What to do next, now. The clock is read, and the rest is
    /// [`SendInput::poll_at`] at the instant that the clock says.
    pub fn poll(&mut self, channel: &Channel) -> (action: Action)
        ensures
            exists|now: i64|
                is_clock_instant(now) && #[trigger] old(self).polled_at(
                    *final(self),
                    *channel,
                    now,
                    action,
                ),
    {
        let now = utc_now_micros();
        self.poll_at(channel, now)
    }

    /// Whether the send has ended.
    pub fn is_over(&self) -> (over: bool)
        ensures
            over == (self.phase == SendInputPhase::Over),
    {
        self.phase == SendInputPhase::Over
    }
}

impl Channel {
    /// The bytes that end an input line: the return character.
    pub fn write_return(&self) -> (bytes: Vec<u8>)
        ensures
            bytes@ == encode_utf8(self.args.return_char@),
    {
        joined(self.args.return_char.as_str().as_bytes(), &[])
    }

    /// Cleans up what the reads of an operation gave: trims each line on
    /// the right, cuts out the prompt where `strip_prompt` asks for it, and
    /// trims linefeeds and the bytes of the return character off both
    /// ends.
    pub fn process_output(&self, b: &[u8], strip_prompt: bool) -> (out: Vec<u8>)
        ensures
            out@ == processed_output(
                b@,
                strip_prompt,
                self.args.prompt_pattern@,
                encode_utf8(self.args.return_char@),
            ),
    {
        let mut lines = clean_output_lines(b);
        if strip_prompt {
            lines = self.args.prompt_pattern.remove_all(lines.as_slice());
        }
        let mut cutset: Vec<u8> = Vec::new();
        cutset.push(NEW_LINE_BYTE);
        cutset.extend_from_slice(self.args.return_char.as_str().as_bytes());
        assert(cutset@ =~= output_cutset(encode_utf8(self.args.return_char@)));
        joined(trim_cutset(lines.as_slice(), cutset.as_slice()), &[])
    }

    /// The timeout of an operation: that of its options, or else that of
    /// the channel.
    pub open spec fn effective_timeout(self, timeout: Option<u64>) -> u64 {
        match timeout {
            Some(timeout) => timeout,
            None => self.args.timeout_ops,
        }
    }

    /// `r` is what starting to send `b` at the instant `now` gives: a send
    /// at its start, which gives up once the timeout has passed; or, if and
    /// only if the clock cannot hold that deadline, an error.
    pub open spec fn started_at(
        self,
        b: Seq<u8>,
        options: Options,
        now: i64,
        r: Result<SendInput, ScrapliError>,
    ) -> bool {
        match deadline_of(now, self.effective_timeout(options.timeout)) {
            Some(deadline) => r matches Ok(send) && send.is_start(b, options, deadline),
            None => r matches Err(e) && e.details@ == TIMEOUT_OUT_OF_RANGE@,
        }
    }

    /// Starts sending `b` at the instant `now`: the send gives up once the
    /// timeout of the options, or else that of the channel, has passed. An
    /// error comes back if and only if the clock cannot hold that
    /// deadline.
    pub fn send_input_bytes_at(&self, b: &[u8], options: &Options, now: i64) -> (r: Result<
        SendInput,
        ScrapliError,
    >)
        ensures
            self.started_at(b@, *options, now, r),
    {
        let timeout: u64 = match options.timeout {
            Some(timeout) => timeout,
            None => self.args.timeout_ops,
        };
        match deadline_after(now, timeout) {
            Some(deadline) => Ok(
                SendInput {
                    input: joined(b, &[]),
                    strip_prompt: options.strip_prompt,
                    eager: options.eager,
                    interim_prompt_patterns: clone_patterns(&options.interim_prompt_patterns),
                    deadline,
                    phase: SendInputPhase::Start,
                    rb: Vec::new(),
                    found: b.len() == 0,
                    polled: false,
                },
            ),
            None => Err(ScrapliError::new(TIMEOUT_OUT_OF_RANGE)),
        }
    }

    /// Starts sending `b` now. The clock is read, and the rest is
    /// [`Channel::send_input_bytes_at`] at the instant that the clock
    /// says. A send is owed where the timeout is not longer than
    /// [`OWED_TIMEOUT`]: the clock can then hold the deadline whatever it
    /// says.
    pub fn send_input_bytes(&self, b: &[u8], options: &Options) -> (r: Result<
        SendInput,
        ScrapliError,
    >)
        ensures
            exists|now: i64| is_clock_instant(now) && #[trigger] self.started_at(b@, *options, now, r),
            self.effective_timeout(options.timeout) <= OWED_TIMEOUT ==> r.is_ok(),
    {
        let now = utc_now_micros();
        let r = self.send_input_bytes_at(b, options, now);
        assert(is_clock_instant(now) && self.started_at(b@, *options, now, r));
        r
    }

    /// Starts sending the bytes of `input` now: [`Channel::send_input_bytes`]
    /// for a string.
    pub fn send_input(&self, input: &str, options: &Options) -> (r: Result<SendInput, ScrapliError>)
        ensures
            exists|now: i64|
                is_clock_instant(now) && #[trigger] self.started_at(
                    input.spec_bytes(),
                    *options,
                    now,
                    r,
                ),
            self.effective_timeout(options.timeout) <= OWED_TIMEOUT ==> r.is_ok(),
    {
        self.send_input_bytes(input.as_bytes(), options)
    }
}

} // verus!
