use crate::channel::channel::Channel;
use crate::channel::operation::Action;
use crate::channel::patterns::{matched_bytes, pattern_matches};
use crate::channel::read_until::{buffer_after, condition_holds, joined, Condition, ReadUntil};
use crate::channel::send_input::OPERATION_OVER;
use crate::errors::ScrapliError;
use vstd::prelude::*;
use vstd::utf8::encode_utf8;

verus! {

/// The message of the error for a prompt that was seen and then not found.
pub const PROMPT_NOT_FOUND: &'static str =
    "read until prompt, but couldn't match prompt, this is a bug";

/// Where asking for the prompt stands.
#[derive(Clone, Copy, Debug, PartialEq, Eq, Structural)]
pub enum GetPromptPhase {
    /// The return is still to be written.
    Start,
    /// The return was written; the prompt is awaited.
    Reading,
    /// The prompt was returned, or could not be.
    Over,
}

/// Asking the device for its prompt: write a return, read until the prompt
/// pattern matches, and return what it matched.
pub struct GetPrompt {
    /// The read for the prompt.
    pub reading: ReadUntil,
    /// Where the operation stands.
    pub phase: GetPromptPhase,
}

impl GetPrompt {
    /// Takes in the chunk that was read: while the prompt is awaited it
    /// goes to the read for the prompt; else it changes nothing.
    pub fn receive(&mut self, channel: &Channel, nb: &[u8])
        ensures
            final(self).phase == old(self).phase,
            final(self).reading.condition == old(self).reading.condition,
            final(self).reading.polled == old(self).reading.polled,
            old(self).phase == GetPromptPhase::Reading ==> final(self).reading.rb@ == buffer_after(
                old(self).reading.condition,
                channel.args.prompt_search_depth as int,
                old(self).reading.rb@,
                nb@,
            ) && final(self).reading.found == (nb@.len() > 0 && condition_holds(
                old(self).reading.condition,
                channel.args.prompt_pattern@,
                final(self).reading.rb@,
            )),
            old(self).phase != GetPromptPhase::Reading ==> final(self).reading == old(self).reading,
    {
        if self.phase == GetPromptPhase::Reading {
            self.reading.receive(channel, nb);
        }
    }

    /// What to do next.
    ///
    /// At the start: write the return. While the prompt is awaited and has
    /// not come: read, after the read delay of the channel from the second
    /// read on. Once it has come: done, with the bytes that the prompt
    /// pattern matches first in what was read; where it matches nothing
    /// there, fail. After the end: fail.
    pub fn poll(&mut self, channel: &Channel) -> (action: Action)
        ensures
            final(self).reading.condition == old(self).reading.condition,
            match old(self).phase {
                GetPromptPhase::Start => {
                    &&& final(self).phase == GetPromptPhase::Reading
                    &&& final(self).reading == old(self).reading
                    &&& action matches Action::Write(bytes) && bytes@ == encode_utf8(
                        channel.args.return_char@,
                    )
                },
                GetPromptPhase::Reading => if old(self).reading.found {
                    &&& final(self).phase == GetPromptPhase::Over
                    &&& if pattern_matches(channel.args.prompt_pattern@, old(self).reading.rb@) {
                        action matches Action::Done(prompt) && prompt@ == matched_bytes(
                            channel.args.prompt_pattern@,
                            old(self).reading.rb@,
                        )
                    } else {
                        action matches Action::Fail(e) && e.details@ == PROMPT_NOT_FOUND@
                    }
                } else {
                    &&& final(self).phase == GetPromptPhase::Reading
                    &&& final(self).reading.rb == old(self).reading.rb
                    &&& !final(self).reading.found
                    &&& final(self).reading.polled
                    &&& action matches Action::Read(pause) && pause == (if old(self).reading.polled {
                        channel.args.read_delay
                    } else {
                        0
                    })
                },
                GetPromptPhase::Over => {
                    &&& final(self).phase == GetPromptPhase::Over
                    &&& action matches Action::Fail(e) && e.details@ == OPERATION_OVER@
                },
            },
    {
        match self.phase {
            GetPromptPhase::Start => {
                self.phase = GetPromptPhase::Reading;
                Action::Write(channel.write_return())
            },
            GetPromptPhase::Reading => {
                match self.reading.poll(channel) {
                    Action::Done(rb) => {
                        self.phase = GetPromptPhase::Over;
                        match channel.args.prompt_pattern.find(rb.as_slice()) {
                            Some(prompt) => Action::Done(prompt),
                            None => Action::Fail(ScrapliError::new(PROMPT_NOT_FOUND)),
                        }
                    },
                    other => other,
                }
            },
            GetPromptPhase::Over => Action::Fail(ScrapliError::new(OPERATION_OVER)),
        }
    }

    /// Whether the operation has ended.
    pub fn is_over(&self) -> (over: bool)
        ensures
            over == (self.phase == GetPromptPhase::Over),
    {
        self.phase == GetPromptPhase::Over
    }
}

impl Channel {
    /// The bytes to write for `b`: `b` itself. Typically
    /// [`Channel::write_and_return`] is what is wanted.
    pub fn write(&self, b: &[u8]) -> (bytes: Vec<u8>)
        ensures
            bytes@ == b@,
    {
        joined(b, &[])
    }

    /// The writes for `b` followed by a return: first `b`, then the return
    /// character.
    pub fn write_and_return(&self, b: &[u8]) -> (writes: (Vec<u8>, Vec<u8>))
        ensures
            writes.0@ == b@,
            writes.1@ == encode_utf8(self.args.return_char@),
    {
        (self.write(b), self.write_return())
    }

    /// Asks the device for its current prompt.
    pub fn get_prompt(&self) -> (asking: GetPrompt)
        ensures
            asking.phase == GetPromptPhase::Start,
            asking.reading.is_fresh(Condition::Prompt),
    {
        GetPrompt { reading: self.read_until_prompt(), phase: GetPromptPhase::Start }
    }
}

/// A prompt that is split over two chunks is still found: where neither
/// chunk is longer than the search depth, the read buffer after the second
/// chunk is the two chunks joined, and the prompt is looked for in that.
pub proof fn lemma_prompt_split_over_chunks(depth: int, first: Seq<u8>, second: Seq<u8>)
    requires
        first.len() <= depth,
        second.len() <= depth,
    ensures
        buffer_after(
            Condition::Prompt,
            depth,
            buffer_after(Condition::Prompt, depth, Seq::empty(), first),
            second,
        ) == first + second,
{
    assert(Seq::<u8>::empty() + first =~= first);
    assert(first + Seq::<u8>::empty() =~= first);
    assert(Seq::<u8>::empty() + second =~= second);
}

} // verus!
