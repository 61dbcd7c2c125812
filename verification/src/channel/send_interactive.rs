use crate::channel::channel::Channel;
use crate::channel::operation::{any_matches, clone_patterns, pattern_texts, Action, Options};
use crate::channel::patterns::{compile, has_prefix, pattern_matches, Pattern};
use crate::channel::read_until::{any_prompt_matches, joined, search_window};
use crate::channel::send_input::{OPERATION_OVER, TIMED_OUT, TIMEOUT_OUT_OF_RANGE};
use crate::errors::ScrapliError;
use crate::util::bytes::contains_contiguous;
use crate::util::clock::{
    deadline_after,
    deadline_of,
    is_clock_instant,
    utc_now_micros,
    OWED_TIMEOUT,
};
use vstd::prelude::*;
use vstd::string::StringExecFns;
use vstd::utf8::encode_utf8;

verus! {

/// One step of an "interactive" operation: an input, and the answer of the
/// device that ends the step.
pub struct Event {
    /// The input to send to the channel.
    pub input: String,
    /// The pattern of the expected channel response; empty for the prompt
    /// pattern of the channel.
    pub response: String,
    /// If the input will be "hidden" (like when entering a password): the
    /// device does not echo it.
    pub hidden: bool,
}

impl Event {
    /// Return a new event; `hidden` defaults to *false*.
    pub fn new(input: &str, response: &str) -> (event: Self)
        ensures
            event.input@ == input@,
            event.response@ == response@,
            !event.hidden,
    {
        Event { input: input.to_owned(), response: response.to_owned(), hidden: false }
    }

    /// The event as a line of text.
    pub fn to_string(&self) -> (s: String)
        ensures
            s@ == "input: "@ + self.input@ + ", expecting: "@ + self.response@,
    {
        let mut s = String::from_str("input: ");
        s.append(self.input.as_str());
        s.append(", expecting: ");
        s.append(self.response.as_str());
        s
    }
}

impl Clone for Event {
    fn clone(&self) -> (copy: Self)
        ensures
            copy.input@ == self.input@,
            copy.response@ == self.response@,
            copy.hidden == self.hidden,
    {
        Event { input: self.input.clone(), response: self.response.clone(), hidden: self.hidden }
    }
}

/// The steps of an interactive operation, in order.
pub struct Events(pub Vec<Event>);

/// The events as text: for each event its line of text and a linefeed.
pub open spec fn events_text(events: Seq<Event>) -> Seq<char>
    decreases events.len(),
{
    if events.len() == 0 {
        Seq::empty()
    } else {
        events_text(events.drop_last()) + ("input: "@ + events.last().input@ + ", expecting: "@
            + events.last().response@) + "\n"@
    }
}

/// What the events say, field by field.
pub open spec fn event_views(events: Seq<Event>) -> Seq<(Seq<char>, Seq<char>, bool)> {
    events.map_values(|e: Event| (e.input@, e.response@, e.hidden))
}

impl Events {
    /// The number of events.
    pub fn len(&self) -> (n: usize)
        ensures
            n == self.0@.len(),
    {
        self.0.len()
    }

    /// The events as text: a line for each.
    pub fn to_string(&self) -> (s: String)
        ensures
            s@ == events_text(self.0@),
    {
        let mut s = String::new();
        let mut i: usize = 0;
        while i < self.0.len()
            invariant
                i <= self.0@.len(),
                s@ == events_text(self.0@.take(i as int)),
            decreases self.0@.len() - i,
        {
            proof {
                assert(self.0@.take(i + 1).drop_last() =~= self.0@.take(i as int));
                assert(self.0@.take(i + 1).last() == self.0@[i as int]);
            }
            let line = self.0[i].to_string();
            s.append(line.as_str());
            s.append("\n");
            i += 1;
        }
        assert(self.0@.take(self.0@.len() as int) =~= self.0@);
        s
    }

    /// A copy of the events.
    pub fn duplicate(&self) -> (copy: Self)
        ensures
            event_views(copy.0@) == event_views(self.0@),
    {
        let mut copy: Vec<Event> = Vec::new();
        let mut i: usize = 0;
        while i < self.0.len()
            invariant
                i <= self.0@.len(),
                copy@.len() == i,
                forall|j: int|
                    0 <= j < i ==> (#[trigger] copy@[j]).input@ == self.0@[j].input@ && copy@[j].response@
                        == self.0@[j].response@ && copy@[j].hidden == self.0@[j].hidden,
            decreases self.0@.len() - i,
        {
            copy.push(self.0[i].clone());
            i += 1;
        }
        assert(event_views(copy@) =~= event_views(self.0@));
        Events(copy)
    }
}

impl core::ops::Deref for Events {
    type Target = Vec<Event>;

    fn deref(&self) -> (events: &Vec<Event>)
        ensures
            *events == self.0,
    {
        &self.0
    }
}

/// Where an interactive operation stands.
#[derive(Clone, Copy, Debug, PartialEq, Eq, Structural)]
pub enum InteractivePhase {
    /// The input of the current event is still to be written.
    Start,
    /// The input was written; its echo is awaited.
    Echo,
    /// The return is still to be written.
    Return,
    /// The return was written; the response is awaited.
    Response,
    /// The operation has ended.
    Over,
}

/// An interactive operation: for each event, write the input, wait until
/// the device has echoed it (unless it is hidden or empty), write the
/// return, and wait for the response.
pub struct SendInteractive {
    /// The events of the operation.
    pub events: Vec<Event>,
    /// Patterns that end the operation early.
    pub complete_patterns: Vec<Pattern>,
    /// The instant at which the operation gives up, in microseconds.
    pub deadline: i64,
    /// The index of the current event.
    pub idx: usize,
    /// Where the operation stands in the current event.
    pub phase: InteractivePhase,
    /// The compiled response of the current event, where it has one.
    pub response: Option<Pattern>,
    /// Everything read in the steps that are complete.
    pub b: Vec<u8>,
    /// What was read in this step.
    pub rb: Vec<u8>,
    /// Whether what this step waits for has been seen.
    pub found: bool,
    /// Whether this step has asked for a read already.
    pub polled: bool,
}

/// The message of the error for a response that is no pattern begins with
/// this, for the response `response`.
pub open spec fn response_error_prefix(response: Seq<char>) -> Seq<char> {
    "channel response '"@ + response + "', could not be compiled, error: "@
}

impl SendInteractive {
    /// An interactive operation that has done nothing yet.
    pub open spec fn is_start(self, events: Seq<Event>, options: Options, deadline: i64) -> bool {
        &&& event_views(self.events@) == event_views(events)
        &&& pattern_texts(self.complete_patterns@) == pattern_texts(options.complete_patterns@)
        &&& self.deadline == deadline
        &&& self.idx == 0
        &&& self.phase == InteractivePhase::Start
        &&& self.response.is_none()
        &&& self.b@.len() == 0
        &&& self.rb@.len() == 0
        &&& !self.found
        &&& !self.polled
    }

    /// The settings of the operation, which no step changes.
    pub open spec fn same_operation(self, other: Self) -> bool {
        &&& self.events == other.events
        &&& self.complete_patterns == other.complete_patterns
        &&& self.deadline == other.deadline
    }

    /// The operation is at an event, or past the last one and over or
    /// about to end.
    pub open spec fn well_formed(self) -> bool {
        &&& self.idx <= self.events@.len()
        &&& (self.phase == InteractivePhase::Echo || self.phase == InteractivePhase::Return
            || self.phase == InteractivePhase::Response) ==> self.idx < self.events@.len()
    }

    /// The pause before the next read of this step: none before the first,
    /// an eighth of the read delay before the others.
    pub open spec fn pause(self, read_delay: u64) -> u64 {
        if self.polled {
            read_delay / 8
        } else {
            0
        }
    }

    /// The text of the pattern that ends the current event: its response,
    /// or the prompt pattern where the response is empty.
    pub open spec fn awaited(self, prompt: Seq<char>) -> Seq<char> {
        match self.response {
            Some(pattern) => pattern@,
            None => prompt,
        }
    }

    /// The response of the current event has come: a completion pattern or
    /// the awaited pattern matches in `rb`.
    pub open spec fn response_seen(self, prompt: Seq<char>, rb: Seq<u8>) -> bool {
        any_matches(pattern_texts(self.complete_patterns@), rb) || pattern_matches(
            self.awaited(prompt),
            rb,
        )
    }

    /// After the event at `idx`, with `b` read so far, the operation ends
    /// early: the event is not the last one, completion patterns were
    /// given, and one of them matches in `b`.
    pub open spec fn ends_early(self, b: Seq<u8>) -> bool {
        &&& self.idx + 1 < self.events@.len()
        &&& self.complete_patterns@.len() > 0
        &&& any_matches(pattern_texts(self.complete_patterns@), b)
    }

    /// Takes in the chunk that was read. While the echo is awaited the
    /// chunk joins the read buffer, and the echo is there once the input
    /// stands in it. While the response is awaited the part of the chunk
    /// that is searched joins the read buffer, and the response is there
    /// once a completion pattern or the awaited pattern matches. An empty
    /// chunk, and a chunk in any other phase, changes nothing.
    pub fn receive(&mut self, channel: &Channel, nb: &[u8])
        requires
            old(self).well_formed(),
        ensures
            final(self).well_formed(),
            final(self).same_operation(*old(self)),
            final(self).idx == old(self).idx,
            final(self).phase == old(self).phase,
            final(self).response == old(self).response,
            final(self).b == old(self).b,
            final(self).polled == old(self).polled,
            old(self).phase == InteractivePhase::Echo && nb@.len() > 0 ==> final(self).rb@ == old(
                self,
            ).rb@ + nb@ && final(self).found == contains_contiguous(
                final(self).rb@,
                encode_utf8(old(self).events@[old(self).idx as int].input@),
            ),
            old(self).phase == InteractivePhase::Response && nb@.len() > 0 ==> final(self).rb@
                == old(self).rb@ + search_window(nb@, channel.args.prompt_search_depth as int)
                && final(self).found == old(self).response_seen(
                channel.args.prompt_pattern@,
                final(self).rb@,
            ),
            (old(self).phase != InteractivePhase::Echo && old(self).phase
                != InteractivePhase::Response) || nb@.len() == 0 ==> final(self).rb == old(self).rb
                && final(self).found == old(self).found,
    {
        if nb.len() == 0 {
            return ;
        }
        match self.phase {
            InteractivePhase::Echo => {
                let (found, rb) = channel._read_and_check_for_explicit(
                    self.rb.as_slice(),
                    nb,
                    self.events[self.idx].input.as_str().as_bytes(),
                );
                self.rb = rb;
                self.found = found;
            },
            InteractivePhase::Response => {
                let (_, rb) = channel._read_and_check_for_any_prompt(
                    self.rb.as_slice(),
                    nb,
                    self.complete_patterns.as_slice(),
                );
                let complete = any_prompt_matches(self.complete_patterns.as_slice(), rb.as_slice());
                let awaited = match &self.response {
                    Some(pattern) => pattern.is_match(rb.as_slice()),
                    None => channel.args.prompt_pattern.is_match(rb.as_slice()),
                };
                self.rb = rb;
                self.found = complete || awaited;
            },
            _ => {},
        }
    }

    /// Begins the current event, or ends the operation where no event is
    /// left: compiles the response, where there is one, and goes on with
    /// what that gave.
    fn begin(&mut self, channel: &Channel) -> (action: Action)
        requires
            old(self).idx <= old(self).events@.len(),
        ensures
            final(self).same_operation(*old(self)),
            final(self).idx == old(self).idx,
            final(self).b == old(self).b,
            final(self).well_formed(),
            old(self).begun(*final(self), action),
    {
        if self.idx >= self.events.len() {
            return self.begin_with(None);
        }
        let response = self.events[self.idx].response.as_str();
        if response.is_empty() {
            self.begin_with(None)
        } else {
            let compiled = compile(response);
            self.begin_with(Some(compiled))
        }
    }

    /// Begins the current event with what compiling its response gave,
    /// `None` for an event without a response; or ends the operation where
    /// no event is left. See [`SendInteractive::begun_with`].
    pub fn begin_with(&mut self, compiled: Option<Result<Pattern, regex::Error>>) -> (action: Action)
        requires
            old(self).idx <= old(self).events@.len(),
        ensures
            final(self).same_operation(*old(self)),
            final(self).idx == old(self).idx,
            final(self).b == old(self).b,
            final(self).well_formed(),
            old(self).begun_with(compiled, *final(self), action),
    {
        if self.idx >= self.events.len() {
            self.phase = InteractivePhase::Over;
            return Action::Done(joined(self.b.as_slice(), &[]));
        }
        let event = &self.events[self.idx];
        match compiled {
            None => {
                self.response = None;
            },
            Some(compiled) => {
                let mut prefix = String::from_str("channel response '");
                prefix.append(event.response.as_str());
                prefix.append("', could not be compiled, error: ");
                match Pattern::checked(compiled, prefix.as_str()) {
                    Ok(pattern) => {
                        self.response = Some(pattern);
                    },
                    Err(err) => {
                        self.phase = InteractivePhase::Over;
                        return Action::Fail(err);
                    },
                }
            },
        }
        let echoed = !event.input.as_str().is_empty() && !event.hidden;
        let bytes = joined(event.input.as_str().as_bytes(), &[]);
        self.phase = if echoed {
            InteractivePhase::Echo
        } else {
            InteractivePhase::Return
        };
        self.rb = Vec::new();
        self.found = false;
        self.polled = false;
        Action::Write(bytes)
    }

    /// What beginning the current event of `self` leads to, where
    /// compiling its response gave `compiled`: the state `next` and the
    /// action `action`.
    ///
    /// With no event left, the operation is done with all that was read.
    /// Where the response did not compile, the operation fails, and the
    /// error names the response. Else the pattern that ends the event is
    /// set: the compiled response, or none, for the prompt pattern of the
    /// channel; the input is to be written, and the operation goes on to
    /// await the echo, or to write the return where the input is hidden or
    /// empty.
    pub open spec fn begun_with(
        self,
        compiled: Option<Result<Pattern, regex::Error>>,
        next: Self,
        action: Action,
    ) -> bool {
        if self.idx >= self.events@.len() {
            &&& next.phase == InteractivePhase::Over
            &&& action matches Action::Done(result) && result@ == self.b@
        } else {
            let event = self.events@[self.idx as int];
            match compiled {
                Some(Err(_)) => {
                    &&& next.phase == InteractivePhase::Over
                    &&& action matches Action::Fail(e) && has_prefix(
                        e.details@,
                        response_error_prefix(event.response@),
                    )
                },
                _ => {
                    &&& next.response == (match compiled {
                        Some(Ok(pattern)) => Some(pattern),
                        _ => None,
                    })
                    &&& next.phase == (if event.input@.len() > 0 && !event.hidden {
                        InteractivePhase::Echo
                    } else {
                        InteractivePhase::Return
                    })
                    &&& next.rb@.len() == 0
                    &&& !next.found
                    &&& !next.polled
                    &&& action matches Action::Write(bytes) && bytes@ == encode_utf8(event.input@)
                },
            }
        }
    }

    /// What beginning the current event of `self` leads to: the state
    /// `next` and the action `action`.
    ///
    /// With no event left, the operation is done with all that was read.
    /// Else the response of the event, unless it is empty, is compiled: if
    /// that fails the operation fails, and the error names the response.
    /// Else the input is to be written, and the operation goes on to await
    /// the echo, or to write the return where the input is hidden or empty.
    pub open spec fn begun(self, next: Self, action: Action) -> bool {
        if self.idx >= self.events@.len() {
            &&& next.phase == InteractivePhase::Over
            &&& action matches Action::Done(result) && result@ == self.b@
        } else {
            let event = self.events@[self.idx as int];
            ||| {
                &&& event.response@.len() > 0
                &&& next.phase == InteractivePhase::Over
                &&& action matches Action::Fail(e) && has_prefix(
                    e.details@,
                    response_error_prefix(event.response@),
                )
            }
            ||| {
                &&& if event.response@.len() == 0 {
                    next.response.is_none()
                } else {
                    next.response matches Some(pattern) && pattern@ == event.response@
                }
                &&& next.phase == (if event.input@.len() > 0 && !event.hidden {
                    InteractivePhase::Echo
                } else {
                    InteractivePhase::Return
                })
                &&& next.rb@.len() == 0
                &&& !next.found
                &&& !next.polled
                &&& action matches Action::Write(bytes) && bytes@ == encode_utf8(event.input@)
            }
        }
    }

    /// Another read, unless the deadline has come.
    fn wait(&mut self, channel: &Channel, now: i64) -> (action: Action)
        requires
            old(self).well_formed(),
        ensures
            final(self).well_formed(),
            final(self).same_operation(*old(self)),
            final(self).idx == old(self).idx,
            final(self).response == old(self).response,
            final(self).b == old(self).b,
            final(self).rb == old(self).rb,
            final(self).found == old(self).found,
            old(self).deadline <= now ==> final(self).phase == InteractivePhase::Over && (
            action matches Action::Fail(e) && e.details@ == TIMED_OUT@),
            old(self).deadline > now ==> final(self).phase == old(self).phase && final(self).polled
                && (action matches Action::Read(pause) && pause == old(self).pause(
                channel.args.read_delay,
            )),
    {
        if self.deadline <= now {
            self.phase = InteractivePhase::Over;
            return Action::Fail(ScrapliError::new(TIMED_OUT));
        }
        let pause: u64 = if self.polled {
            channel.args.read_delay / 8
        } else {
            0
        };
        self.polled = true;
        Action::Read(pause)
    }

    /// Asks for the return to be written, and goes on to await the
    /// response; what the step before has read joins what was read so far.
    fn hit_return(&mut self, channel: &Channel) -> (action: Action)
        requires
            old(self).well_formed(),
            old(self).idx < old(self).events@.len(),
        ensures
            final(self).well_formed(),
            final(self).same_operation(*old(self)),
            final(self).idx == old(self).idx,
            final(self).response == old(self).response,
            final(self).phase == InteractivePhase::Response,
            final(self).b@ == old(self).b@ + old(self).rb@,
            final(self).rb@.len() == 0,
            !final(self).found,
            !final(self).polled,
            action matches Action::Write(bytes) && bytes@ == encode_utf8(channel.args.return_char@),
    {
        self.b.extend_from_slice(self.rb.as_slice());
        self.rb = Vec::new();
        self.found = false;
        self.polled = false;
        self.phase = InteractivePhase::Response;
        Action::Write(channel.write_return())
    }

    /// What asking the operation `self` at the instant `now` leads to: the
    /// state `next` and the action `action`. [`SendInteractive::poll_at`]
    /// says it in words.
    pub open spec fn polled_at(self, next: Self, channel: Channel, now: i64, action: Action) -> bool {
        &&& next.well_formed()
        &&& next.same_operation(self)
        &&& match self.phase {
            InteractivePhase::Start => {
                &&& next.idx == self.idx
                &&& next.b == self.b
                &&& self.begun(next, action)
            },
            InteractivePhase::Echo => if self.found {
                &&& next.idx == self.idx
                &&& next.response == self.response
                &&& next.phase == InteractivePhase::Response
                &&& next.b@ == self.b@ + self.rb@
                &&& next.rb@.len() == 0
                &&& !next.found
                &&& !next.polled
                &&& action matches Action::Write(bytes) && bytes@ == encode_utf8(
                    channel.args.return_char@,
                )
            } else {
                self.waited(next, action, channel.args.read_delay, now)
            },
            InteractivePhase::Return => {
                &&& next.idx == self.idx
                &&& next.response == self.response
                &&& next.phase == InteractivePhase::Response
                &&& next.b@ == self.b@ + self.rb@
                &&& next.rb@.len() == 0
                &&& !next.found
                &&& !next.polled
                &&& action matches Action::Write(bytes) && bytes@ == encode_utf8(
                    channel.args.return_char@,
                )
            },
            InteractivePhase::Response => if self.found {
                let b = self.b@ + self.rb@;
                if self.ends_early(b) {
                    &&& next.phase == InteractivePhase::Over
                    &&& action matches Action::Done(result) && result@ == b
                } else {
                    &&& next.idx == self.idx + 1
                    &&& next.b@ == b
                    &&& (Self { idx: next.idx, b: next.b, ..self }).begun(
                        next,
                        action,
                    )
                }
            } else {
                self.waited(next, action, channel.args.read_delay, now)
            },
            InteractivePhase::Over => {
                &&& next.phase == InteractivePhase::Over
                &&& action matches Action::Fail(e) && e.details@ == OPERATION_OVER@
            },
        }
    }

    /// What to do next, at the instant `now`.
    ///
    /// At the start of an event: see [`SendInteractive::begun`]. While the
    /// echo is awaited: once it is there, write the return; else fail if
    /// the deadline has come; else read. Before the return: write it.
    /// While the response is awaited: once it is there, what the event has
    /// read joins what was read so far, and the operation is done with it
    /// where it ends early (see [`SendInteractive::ends_early`]); else it
    /// begins the next event. Until the response is there: fail if the
    /// deadline has come; else read. After the end: fail.
    pub fn poll_at(&mut self, channel: &Channel, now: i64) -> (action: Action)
        requires
            old(self).well_formed(),
        ensures
            old(self).polled_at(*final(self), *channel, now, action),
    {
        match self.phase {
            InteractivePhase::Start => self.begin(channel),
            InteractivePhase::Echo => {
                if self.found {
                    self.hit_return(channel)
                } else {
                    self.wait(channel, now)
                }
            },
            InteractivePhase::Return => self.hit_return(channel),
            InteractivePhase::Response => {
                if self.found {
                    self.b.extend_from_slice(self.rb.as_slice());
                    assert(self.b@ == old(self).b@ + old(self).rb@);
                    let count = self.events.len();
                    let last = self.idx + 1 >= count;
                    if !last && self.complete_patterns.len() > 0 && any_prompt_matches(
                        self.complete_patterns.as_slice(),
                        self.b.as_slice(),
                    ) {
                        self.phase = InteractivePhase::Over;
                        return Action::Done(joined(self.b.as_slice(), &[]));
                    }
                    self.idx = self.idx + 1;
                    self.begin(channel)
                } else {
                    self.wait(channel, now)
                }
            },
            InteractivePhase::Over => Action::Fail(ScrapliError::new(OPERATION_OVER)),
        }
    }

    /// What waiting in `self` at the instant `now` leads to: a failure once
    /// the deadline has come, another read until then.
    pub open spec fn waited(self, next: Self, action: Action, read_delay: u64, now: i64) -> bool {
        &&& next.idx == self.idx
        &&& next.response == self.response
        &&& next.b == self.b
        &&& next.rb == self.rb
        &&& next.found == self.found
        &&& if self.deadline <= now {
            &&& next.phase == InteractivePhase::Over
            &&& action matches Action::Fail(e) && e.details@ == TIMED_OUT@
        } else {
            &&& next.phase == self.phase
            &&& next.polled
            &&& action matches Action::Read(pause) && pause == self.pause(read_delay)
        }
    }

    /// What to do next, now. The clock is read, and the rest is
    /// [`SendInteractive::poll_at`] at the instant that the clock says.
    pub fn poll(&mut self, channel: &Channel) -> (action: Action)
        requires
            old(self).well_formed(),
        ensures
            exists|now: i64|
                is_clock_instant(now) && #[trigger] old(self).polled_at(
                    *final(self),
                    *channel,
                    now,
                    action,
                ),
    {
        let now = utc_now_micros();
        self.poll_at(channel, now)
    }

    /// Whether the operation has ended.
    pub fn is_over(&self) -> (over: bool)
        ensures
            over == (self.phase == InteractivePhase::Over),
    {
        self.phase == InteractivePhase::Over
    }
}

impl Channel {
    /// `r` is what starting the interactive operation `events` at the
    /// instant `now` gives: the operation at its start, which gives up once
    /// the timeout has passed; or, if and only if the clock cannot hold
    /// that deadline, an error.
    pub open spec fn interactive_started_at(
        self,
        events: Seq<Event>,
        options: Options,
        now: i64,
        r: Result<SendInteractive, ScrapliError>,
    ) -> bool {
        match deadline_of(now, self.effective_timeout(options.timeout)) {
            Some(deadline) => r matches Ok(dialog) && dialog.is_start(events, options, deadline)
                && dialog.well_formed(),
            None => r matches Err(e) && e.details@ == TIMEOUT_OUT_OF_RANGE@,
        }
    }

    /// Starts the interactive operation `events` at the instant `now`: it
    /// gives up once the timeout of the options, or else that of the
    /// channel, has passed. An error comes back if and only if the clock
    /// cannot hold that deadline.
    pub fn send_interactive_at(&self, events: &Events, options: &Options, now: i64) -> (r: Result<
        SendInteractive,
        ScrapliError,
    >)
        ensures
            self.interactive_started_at(events.0@, *options, now, r),
    {
        let timeout: u64 = match options.timeout {
            Some(timeout) => timeout,
            None => self.args.timeout_ops,
        };
        match deadline_after(now, timeout) {
            Some(deadline) => Ok(
                SendInteractive {
                    events: events.duplicate().0,
                    complete_patterns: clone_patterns(&options.complete_patterns),
                    deadline,
                    idx: 0,
                    phase: InteractivePhase::Start,
                    response: None,
                    b: Vec::new(),
                    rb: Vec::new(),
                    found: false,
                    polled: false,
                },
            ),
            None => Err(ScrapliError::new(TIMEOUT_OUT_OF_RANGE)),
        }
    }

    /// Starts the interactive operation `events` now. This is typically
    /// used for well understood dialogs of a device: a command that asks
    /// for confirmation, or a privilege escalation that asks for a
    /// password. The clock is read, and the rest is
    /// [`Channel::send_interactive_at`] at the instant that the clock
    /// says. The operation is owed where the timeout is not longer than
    /// [`OWED_TIMEOUT`]: the clock can then hold the deadline whatever it
    /// says.
    pub fn send_interactive(&self, events: &Events, options: &Options) -> (r: Result<
        SendInteractive,
        ScrapliError,
    >)
        ensures
            exists|now: i64|
                is_clock_instant(now) && #[trigger] self.interactive_started_at(
                    events.0@,
                    *options,
                    now,
                    r,
                ),
            self.effective_timeout(options.timeout) <= OWED_TIMEOUT ==> r.is_ok(),
    {
        let now = utc_now_micros();
        let r = self.send_interactive_at(events, options, now);
        assert(is_clock_instant(now) && self.interactive_started_at(events.0@, *options, now, r));
        r
    }
}

} // verus!
