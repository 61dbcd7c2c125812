use crate::channel::channel::Channel;
use crate::channel::constants::{PASSPHRASE_SEEN_MAX, PASSWORD_SEEN_MAX, USER_SEEN_MAX};
use crate::channel::operation::{any_matches, pattern_texts, Action};
use crate::channel::patterns::{pattern_matches, Pattern};
use crate::channel::read_until::{buffer_after, joined, Condition, ReadUntil};
use crate::channel::send_input::OPERATION_OVER;
use crate::errors::ScrapliError;
use crate::transport::base::InChannelAuthType;
use vstd::prelude::*;
use vstd::utf8::encode_utf8;

verus! {

/// The message of the error for a user prompt that keeps coming back.
pub const USER_SEEN_TOO_OFTEN: &'static str =
    "user prompt seen multiple times, assuming authentication failed";

/// The message of the error for a password prompt that keeps coming back.
pub const PASSWORD_SEEN_TOO_OFTEN: &'static str =
    "password prompt seen multiple times, assuming authentication failed";

/// The message of the error for a passphrase prompt that keeps coming back.
pub const PASSPHRASE_SEEN_TOO_OFTEN: &'static str =
    "private key passphrase prompt seen multiple times, assuming authentication failed";

/// What a sighting shows: which of the awaited prompts the device has sent.
#[derive(Clone, Copy, Debug, PartialEq, Eq, Structural)]
pub enum Seen {
    /// The prompt of the device: authentication is through.
    Prompt,
    /// The prompt for the user name.
    Username,
    /// The prompt for the password.
    Password,
    /// The prompt for the passphrase of a private key.
    Passphrase,
}

/// How often each credential prompt was answered.
#[derive(Clone, Copy, Debug, PartialEq, Eq, Structural)]
pub struct Counts {
    /// Answers to the prompt for the user name.
    pub user: u8,
    /// Answers to the prompt for the password.
    pub password: u8,
    /// Answers to the prompt for the passphrase.
    pub passphrase: u8,
}

/// No prompt was answered more often than it may be.
pub open spec fn within_limits(counts: Counts) -> bool {
    &&& counts.user <= USER_SEEN_MAX
    &&& counts.password <= PASSWORD_SEEN_MAX
    &&& counts.passphrase <= PASSPHRASE_SEEN_MAX
}

/// The counts after a sighting that is answered; nothing where the
/// sighting ends the authentication: the prompt of the device ends it well,
/// a credential prompt that was answered as often as it may be ends it
/// badly.
pub open spec fn after_sighting(counts: Counts, seen: Seen) -> Option<Counts> {
    match seen {
        Seen::Prompt => None,
        Seen::Username => if counts.user >= USER_SEEN_MAX {
            None
        } else {
            Some(Counts { user: (counts.user + 1) as u8, ..counts })
        },
        Seen::Password => if counts.password >= PASSWORD_SEEN_MAX {
            None
        } else {
            Some(Counts { password: (counts.password + 1) as u8, ..counts })
        },
        Seen::Passphrase => if counts.passphrase >= PASSPHRASE_SEEN_MAX {
            None
        } else {
            Some(Counts { passphrase: (counts.passphrase + 1) as u8, ..counts })
        },
    }
}

/// The counts after these sightings, one after the other; nothing where
/// one of them has ended the authentication.
pub open spec fn after_sightings(counts: Counts, sightings: Seq<Seen>) -> Option<Counts>
    decreases sightings.len(),
{
    if sightings.len() == 0 {
        Some(counts)
    } else {
        match after_sighting(counts, sightings[0]) {
            None => None,
            Some(next) => after_sightings(next, sightings.drop_first()),
        }
    }
}

/// How many more sightings can be answered.
pub open spec fn answers_left(counts: Counts) -> int {
    (USER_SEEN_MAX - counts.user) + (PASSWORD_SEEN_MAX - counts.password) + (PASSPHRASE_SEEN_MAX
        - counts.passphrase)
}

/// More sightings than answers are left end the authentication.
pub proof fn lemma_sightings_are_bounded(counts: Counts, sightings: Seq<Seen>)
    requires
        within_limits(counts),
        sightings.len() > answers_left(counts),
    ensures
        after_sightings(counts, sightings).is_none(),
    decreases sightings.len(),
{
    match after_sighting(counts, sightings[0]) {
        None => {},
        Some(next) => {
            lemma_sightings_are_bounded(next, sightings.drop_first());
        },
    }
}

/// Authentication ends within `USER_SEEN_MAX + PASSWORD_SEEN_MAX +
/// PASSPHRASE_SEEN_MAX + 1` sightings of a prompt, whatever the device
/// sends: it cannot be kept asking for credentials for ever.
pub proof fn lemma_authentication_ends(sightings: Seq<Seen>)
    requires
        sightings.len() >= USER_SEEN_MAX + PASSWORD_SEEN_MAX + PASSPHRASE_SEEN_MAX + 1,
    ensures
        after_sightings(Counts { user: 0, password: 0, passphrase: 0 }, sightings).is_none(),
{
    lemma_sightings_are_bounded(Counts { user: 0, password: 0, passphrase: 0 }, sightings);
}

/// Where an authentication stands.
#[derive(Clone, Copy, Debug, PartialEq, Eq, Structural)]
pub enum AuthPhase {
    /// A prompt is awaited.
    Reading,
    /// A credential was written; the return is still to be written.
    Return,
    /// The authentication has ended.
    Over,
}

/// In-channel authentication: wait for the prompt of the device or for a
/// credential prompt, answer the credential prompts, and end once the
/// prompt of the device is there or one credential prompt has come too
/// often.
pub struct Authenticate {
    /// Which credential prompts are awaited.
    pub auth_type: InChannelAuthType,
    /// The user name.
    pub user: Vec<u8>,
    /// The password.
    pub password: Vec<u8>,
    /// The passphrase of the private key.
    pub passphrase: Vec<u8>,
    /// The pattern of the prompt of the device.
    pub prompt_pattern: Pattern,
    /// The pattern of the prompt for the user name.
    pub username_pattern: Pattern,
    /// The pattern of the prompt for the password.
    pub password_pattern: Pattern,
    /// The pattern of the prompt for the passphrase.
    pub passphrase_pattern: Pattern,
    /// How often each credential prompt was answered.
    pub counts: Counts,
    /// What was read since the last answer.
    pub rb: Vec<u8>,
    /// The read for the next prompt.
    pub reading: ReadUntil,
    /// Where the authentication stands.
    pub phase: AuthPhase,
}

impl Authenticate {
    /// The texts of the patterns that a read waits for: the prompt of the
    /// device and the two credential prompts of this kind of authentication.
    pub open spec fn watched(self) -> Seq<Seq<char>> {
        match self.auth_type {
            InChannelAuthType::Telnet => seq![
                self.prompt_pattern@,
                self.username_pattern@,
                self.password_pattern@,
            ],
            InChannelAuthType::SSH => seq![
                self.prompt_pattern@,
                self.password_pattern@,
                self.passphrase_pattern@,
            ],
        }
    }

    /// What `rb` shows: the first of the awaited prompts, in the order
    /// device prompt, first credential, second credential, that matches in
    /// it; nothing where none does.
    pub open spec fn shown(self, rb: Seq<u8>) -> Option<Seen> {
        if pattern_matches(self.prompt_pattern@, rb) {
            Some(Seen::Prompt)
        } else {
            match self.auth_type {
                InChannelAuthType::Telnet => if pattern_matches(self.username_pattern@, rb) {
                    Some(Seen::Username)
                } else if pattern_matches(self.password_pattern@, rb) {
                    Some(Seen::Password)
                } else {
                    None
                },
                InChannelAuthType::SSH => if pattern_matches(self.password_pattern@, rb) {
                    Some(Seen::Password)
                } else if pattern_matches(self.passphrase_pattern@, rb) {
                    Some(Seen::Passphrase)
                } else {
                    None
                },
            }
        }
    }

    /// The bytes that answer a credential prompt.
    pub open spec fn credential(self, seen: Seen) -> Seq<u8> {
        match seen {
            Seen::Prompt => Seq::empty(),
            Seen::Username => self.user@,
            Seen::Password => self.password@,
            Seen::Passphrase => self.passphrase@,
        }
    }

    /// The settings of the authentication, which no step changes.
    pub open spec fn same_authentication(self, other: Self) -> bool {
        &&& self.auth_type == other.auth_type
        &&& self.user == other.user
        &&& self.password == other.password
        &&& self.passphrase == other.passphrase
        &&& self.prompt_pattern == other.prompt_pattern
        &&& self.username_pattern == other.username_pattern
        &&& self.password_pattern == other.password_pattern
        &&& self.passphrase_pattern == other.passphrase_pattern
        &&& self.reading.condition == other.reading.condition
    }

    /// The authentication is set up, and until it has ended nothing is
    /// left over from before the last answer.
    pub open spec fn well_formed(self) -> bool {
        &&& self.is_set_up()
        &&& self.phase != AuthPhase::Over ==> self.rb@.len() == 0
    }

    /// The counts are within their limits; the read waits for the watched
    /// patterns, and where it has found one, one matches in what it read.
    pub open spec fn is_set_up(self) -> bool {
        &&& within_limits(self.counts)
        &&& self.reading.condition matches Condition::AnyPrompt(prompts) && pattern_texts(prompts@)
            == self.watched()
        &&& self.reading.found ==> any_matches(self.watched(), self.reading.rb@)
    }

    /// An authentication that has done nothing yet.
    pub open spec fn is_start(self) -> bool {
        &&& self.counts == Counts { user: 0, password: 0, passphrase: 0 }
        &&& self.rb@.len() == 0
        &&& self.reading.rb@.len() == 0
        &&& !self.reading.found
        &&& !self.reading.polled
        &&& self.phase == AuthPhase::Reading
    }

    /// A sighting in a well-formed authentication always shows one of the
    /// awaited prompts.
    pub proof fn lemma_sighting_shows_a_prompt(self, rb: Seq<u8>)
        requires
            any_matches(self.watched(), rb),
        ensures
            self.shown(rb).is_some(),
    {
        let i = choose|i: int|
            0 <= i < self.watched().len() && pattern_matches(#[trigger] self.watched()[i], rb);
        assert(pattern_matches(self.watched()[i], rb));
    }

    /// Takes in the chunk that was read: while a prompt is awaited it goes
    /// to the read for the prompt; else it changes nothing.
    pub fn receive(&mut self, channel: &Channel, nb: &[u8])
        requires
            old(self).well_formed(),
        ensures
            final(self).well_formed(),
            final(self).same_authentication(*old(self)),
            final(self).counts == old(self).counts,
            final(self).rb == old(self).rb,
            final(self).phase == old(self).phase,
            final(self).reading.polled == old(self).reading.polled,
            old(self).phase == AuthPhase::Reading ==> final(self).reading.rb@ == buffer_after(
                old(self).reading.condition,
                channel.args.prompt_search_depth as int,
                old(self).reading.rb@,
                nb@,
            ) && final(self).reading.found == (nb@.len() > 0 && any_matches(
                old(self).watched(),
                final(self).reading.rb@,
            )),
            old(self).phase != AuthPhase::Reading ==> final(self).reading == old(self).reading,
    {
        if self.phase == AuthPhase::Reading {
            self.reading.receive(channel, nb);
        }
    }

    /// Starts the read for the next prompt afresh.
    fn read_afresh(&mut self)
        ensures
            final(self).same_authentication(*old(self)),
            final(self).counts == old(self).counts,
            final(self).rb == old(self).rb,
            final(self).phase == old(self).phase,
            final(self).reading.rb@.len() == 0,
            !final(self).reading.found,
            !final(self).reading.polled,
    {
        self.reading.rb = Vec::new();
        self.reading.found = false;
        self.reading.polled = false;
    }

    /// Answers the credential prompt `seen`, or fails where it was
    /// answered as often as it may be.
    fn answer(&mut self, seen: Seen) -> (action: Action)
        requires
            old(self).is_set_up(),
            seen != Seen::Prompt,
        ensures
            final(self).well_formed(),
            final(self).same_authentication(*old(self)),
            old(self).answered(old(self).rb@, seen, *final(self), action),
    {
        let refused = match seen {
            Seen::Username => self.counts.user >= USER_SEEN_MAX,
            Seen::Password => self.counts.password >= PASSWORD_SEEN_MAX,
            _ => self.counts.passphrase >= PASSPHRASE_SEEN_MAX,
        };
        if refused {
            self.phase = AuthPhase::Over;
            let message = match seen {
                Seen::Username => USER_SEEN_TOO_OFTEN,
                Seen::Password => PASSWORD_SEEN_TOO_OFTEN,
                _ => PASSPHRASE_SEEN_TOO_OFTEN,
            };
            return Action::Fail(ScrapliError::new(message));
        }
        let bytes = match seen {
            Seen::Username => {
                self.counts.user = self.counts.user + 1;
                joined(self.user.as_slice(), &[])
            },
            Seen::Password => {
                self.counts.password = self.counts.password + 1;
                joined(self.password.as_slice(), &[])
            },
            _ => {
                self.counts.passphrase = self.counts.passphrase + 1;
                joined(self.passphrase.as_slice(), &[])
            },
        };
        self.rb = Vec::new();
        self.read_afresh();
        self.phase = AuthPhase::Return;
        Action::Write(bytes)
    }

    /// The message of the error for the credential prompt `seen` coming
    /// once too often.
    pub open spec fn refusal(seen: Seen) -> Seq<char> {
        match seen {
            Seen::Username => USER_SEEN_TOO_OFTEN@,
            Seen::Password => PASSWORD_SEEN_TOO_OFTEN@,
            _ => PASSPHRASE_SEEN_TOO_OFTEN@,
        }
    }

    /// What the sighting `seen`, with `rb` read since the last answer,
    /// leads to: the state `next` and the action `action`.
    ///
    /// The prompt of the device ends the authentication, with `rb` as its
    /// result. A credential prompt that was answered as often as it may be
    /// ends it with an error. Any other credential prompt is counted and
    /// answered: the credential is to be written, the return after it, and
    /// what was read is dropped.
    pub open spec fn answered(self, rb: Seq<u8>, seen: Seen, next: Self, action: Action) -> bool {
        match after_sighting(self.counts, seen) {
            None => {
                &&& next.phase == AuthPhase::Over
                &&& if seen == Seen::Prompt {
                    action matches Action::Done(result) && result@ == rb
                } else {
                    action matches Action::Fail(e) && e.details@ == Self::refusal(seen)
                }
            },
            Some(counts) => {
                &&& next.counts == counts
                &&& next.phase == AuthPhase::Return
                &&& next.rb@.len() == 0
                &&& next.reading.rb@.len() == 0
                &&& !next.reading.found
                &&& !next.reading.polled
                &&& action matches Action::Write(bytes) && bytes@ == self.credential(seen)
            },
        }
    }

    /// Handles a sighting: the read for a prompt has handed out `nb`.
    fn sighted(&mut self, channel: &Channel, nb: &[u8]) -> (action: Action)
        requires
            old(self).well_formed(),
            old(self).phase == AuthPhase::Reading,
            any_matches(old(self).watched(), nb@),
        ensures
            final(self).well_formed(),
            final(self).same_authentication(*old(self)),
            old(self).shown(nb@) matches Some(seen) && old(self).answered(
                nb@,
                seen,
                *final(self),
                action,
            ),
    {
        proof {
            self.lemma_sighting_shows_a_prompt(nb@);
        }
        self.rb.extend_from_slice(nb);
        assert(self.rb@ =~= nb@);
        if self.prompt_pattern.is_match(self.rb.as_slice()) {
            self.phase = AuthPhase::Over;
            return Action::Done(joined(self.rb.as_slice(), &[]));
        }
        let first = match self.auth_type {
            InChannelAuthType::Telnet => self.username_pattern.is_match(self.rb.as_slice()),
            InChannelAuthType::SSH => self.password_pattern.is_match(self.rb.as_slice()),
        };
        let seen = match self.auth_type {
            InChannelAuthType::Telnet => if first {
                Seen::Username
            } else {
                Seen::Password
            },
            InChannelAuthType::SSH => if first {
                Seen::Password
            } else {
                Seen::Passphrase
            },
        };
        self.answer(seen)
    }

    /// What to do next.
    ///
    /// While a prompt is awaited and none has come: read, after the read
    /// delay of the channel from the second read on. Once one has come:
    /// see [`Authenticate::answered`], for what the read shows. After a
    /// credential: write the return, and await the next prompt. After the
    /// end: fail.
    pub fn poll(&mut self, channel: &Channel) -> (action: Action)
        requires
            old(self).well_formed(),
        ensures
            final(self).well_formed(),
            final(self).same_authentication(*old(self)),
            match old(self).phase {
                AuthPhase::Reading => if old(self).reading.found {
                    old(self).shown(old(self).reading.rb@) matches Some(seen) && old(self).answered(
                        old(self).reading.rb@,
                        seen,
                        *final(self),
                        action,
                    )
                } else {
                    &&& final(self).counts == old(self).counts
                    &&& final(self).rb == old(self).rb
                    &&& final(self).phase == AuthPhase::Reading
                    &&& final(self).reading.rb == old(self).reading.rb
                    &&& !final(self).reading.found
                    &&& final(self).reading.polled
                    &&& action matches Action::Read(pause) && pause == (if old(self).reading.polled {
                        channel.args.read_delay
                    } else {
                        0
                    })
                },
                AuthPhase::Return => {
                    &&& final(self).counts == old(self).counts
                    &&& final(self).rb == old(self).rb
                    &&& final(self).reading == old(self).reading
                    &&& final(self).phase == AuthPhase::Reading
                    &&& action matches Action::Write(bytes) && bytes@ == encode_utf8(
                        channel.args.return_char@,
                    )
                },
                AuthPhase::Over => {
                    &&& final(self).phase == AuthPhase::Over
                    &&& action matches Action::Fail(e) && e.details@ == OPERATION_OVER@
                },
            },
    {
        match self.phase {
            AuthPhase::Reading => {
                match self.reading.poll(channel) {
                    Action::Done(nb) => self.sighted(channel, nb.as_slice()),
                    Action::Read(pause) => Action::Read(pause),
                    other => other,
                }
            },
            AuthPhase::Return => {
                self.phase = AuthPhase::Reading;
                Action::Write(channel.write_return())
            },
            AuthPhase::Over => Action::Fail(ScrapliError::new(OPERATION_OVER)),
        }
    }

    /// Whether the authentication has ended.
    pub fn is_over(&self) -> (over: bool)
        ensures
            over == (self.phase == AuthPhase::Over),
    {
        self.phase == AuthPhase::Over
    }
}

impl Channel {
    /// An authentication of the given kind with the patterns of the
    /// channel.
    fn authenticate(
        &self,
        auth_type: InChannelAuthType,
        user: &[u8],
        password: &[u8],
        passphrase: &[u8],
    ) -> (auth: Authenticate)
        ensures
            auth.well_formed(),
            auth.is_start(),
            auth.auth_type == auth_type,
            auth.user@ == user@,
            auth.password@ == password@,
            auth.passphrase@ == passphrase@,
            auth.prompt_pattern@ == self.args.prompt_pattern@,
            auth.username_pattern@ == self.args.username_pattern@,
            auth.password_pattern@ == self.args.password_pattern@,
            auth.passphrase_pattern@ == self.args.passphrase_pattern@,
    {
        let mut prompts: Vec<Pattern> = Vec::new();
        prompts.push(self.args.prompt_pattern.clone());
        match auth_type {
            InChannelAuthType::Telnet => {
                prompts.push(self.args.username_pattern.clone());
                prompts.push(self.args.password_pattern.clone());
            },
            InChannelAuthType::SSH => {
                prompts.push(self.args.password_pattern.clone());
                prompts.push(self.args.passphrase_pattern.clone());
            },
        }
        let auth = Authenticate {
            auth_type,
            user: joined(user, &[]),
            password: joined(password, &[]),
            passphrase: joined(passphrase, &[]),
            prompt_pattern: self.args.prompt_pattern.clone(),
            username_pattern: self.args.username_pattern.clone(),
            password_pattern: self.args.password_pattern.clone(),
            passphrase_pattern: self.args.passphrase_pattern.clone(),
            counts: Counts { user: 0, password: 0, passphrase: 0 },
            rb: Vec::new(),
            reading: ReadUntil::new(Condition::AnyPrompt(prompts)),
            phase: AuthPhase::Reading,
        };
        assert(pattern_texts(prompts@) =~= auth.watched());
        auth
    }

    /// Telnet authentication in the channel: the prompts for the user name
    /// and for the password are answered until the prompt of the device
    /// comes.
    pub fn authenticate_telnet(&self, user: &[u8], password: &[u8]) -> (auth: Authenticate)
        ensures
            auth.well_formed(),
            auth.is_start(),
            auth.auth_type == InChannelAuthType::Telnet,
            auth.user@ == user@,
            auth.password@ == password@,
            auth.prompt_pattern@ == self.args.prompt_pattern@,
            auth.username_pattern@ == self.args.username_pattern@,
            auth.password_pattern@ == self.args.password_pattern@,
    {
        self.authenticate(InChannelAuthType::Telnet, user, password, &[])
    }

    /// SSH authentication in the channel: the prompts for the password and
    /// for the passphrase of the private key are answered until the prompt
    /// of the device comes.
    pub fn authenticate_ssh(&self, password: &[u8], passphrase: &[u8]) -> (auth: Authenticate)
        ensures
            auth.well_formed(),
            auth.is_start(),
            auth.auth_type == InChannelAuthType::SSH,
            auth.password@ == password@,
            auth.passphrase@ == passphrase@,
            auth.prompt_pattern@ == self.args.prompt_pattern@,
            auth.password_pattern@ == self.args.password_pattern@,
            auth.passphrase_pattern@ == self.args.passphrase_pattern@,
    {
        self.authenticate(InChannelAuthType::SSH, &[], password, passphrase)
    }
}

} // verus!
