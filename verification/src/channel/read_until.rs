use crate::channel::channel::Channel;
use crate::channel::constants::NEW_LINE_BYTE;
use crate::channel::operation::{any_matches, pattern_texts, Action};
use crate::channel::patterns::{pattern_matches, Pattern};
use crate::util::bytes::{contains_contiguous, is_sub, is_subsequence, roughly_contains};
use vstd::prelude::*;
use vstd::slice::slice_subrange;

verus! {

/// The offset of the first linefeed of `b`; the length of `b` where it has
/// none.
pub open spec fn first_linefeed(b: Seq<u8>) -> int
    decreases b.len(),
{
    if b.len() == 0 || b[0] == NEW_LINE_BYTE {
        0
    } else {
        1 + first_linefeed(b.drop_first())
    }
}

/// What is kept of a chunk before it is searched for a prompt: a chunk of
/// at most `depth` bytes whole; of a longer one its last `depth` bytes,
/// and of those what begins at their first linefeed, where they hold one.
pub open spec fn search_window(chunk: Seq<u8>, depth: int) -> Seq<u8> {
    if chunk.len() <= depth {
        chunk
    } else {
        let tail = chunk.skip(chunk.len() - depth);
        let at = first_linefeed(tail);
        if at < tail.len() {
            tail.skip(at)
        } else {
            tail
        }
    }
}

/// The first linefeed is where no linefeed stands before.
pub proof fn lemma_first_linefeed_at(b: Seq<u8>, at: int)
    requires
        0 <= at <= b.len(),
        forall|j: int| 0 <= j < at ==> b[j] != NEW_LINE_BYTE,
        at < b.len() ==> b[at] == NEW_LINE_BYTE,
    ensures
        first_linefeed(b) == at,
    decreases at,
{
    if at > 0 {
        let rest = b.drop_first();
        assert forall|j: int| 0 <= j < at - 1 implies rest[j] != NEW_LINE_BYTE by {
            assert(rest[j] == b[j + 1]);
        }
        lemma_first_linefeed_at(rest, at - 1);
    }
}

/// A copy of `old_rb` followed by `more`.
pub fn joined(old_rb: &[u8], more: &[u8]) -> (rb: Vec<u8>)
    ensures
        rb@ == old_rb@ + more@,
{
    let mut rb: Vec<u8> = Vec::new();
    rb.extend_from_slice(old_rb);
    rb.extend_from_slice(more);
    assert(rb@ =~= old_rb@ + more@);
    rb
}

/// Whether one of `prompts` matches somewhere in `rb`.
pub fn any_prompt_matches(prompts: &[Pattern], rb: &[u8]) -> (found: bool)
    ensures
        found == any_matches(pattern_texts(prompts@), rb@),
{
    let mut i: usize = 0;
    while i < prompts.len()
        invariant
            i <= prompts@.len(),
            forall|j: int| 0 <= j < i ==> !pattern_matches(#[trigger] pattern_texts(prompts@)[j], rb@),
        decreases prompts@.len() - i,
    {
        if prompts[i].is_match(rb) {
            assert(pattern_matches(pattern_texts(prompts@)[i as int], rb@));
            return true;
        }
        i += 1;
    }
    false
}

impl Channel {
    /// Cuts a chunk down to the part that is searched for a prompt.
    pub fn process_read_buf(&self, rb: &[u8]) -> (prb: Vec<u8>)
        ensures
            prb@ == search_window(rb@, self.args.prompt_search_depth as int),
    {
        let depth: usize = self.args.prompt_search_depth as usize;
        if rb.len() <= depth {
            return joined(rb, &[]);
        }
        let tail = slice_subrange(rb, rb.len() - depth, rb.len());
        let mut at: usize = 0;
        while at < tail.len()
            invariant
                at <= tail@.len(),
                forall|j: int| 0 <= j < at ==> tail@[j] != NEW_LINE_BYTE,
            ensures
                at <= tail@.len(),
                forall|j: int| 0 <= j < at ==> tail@[j] != NEW_LINE_BYTE,
                at < tail@.len() ==> tail@[at as int] == NEW_LINE_BYTE,
            decreases tail@.len() - at,
        {
            if tail[at] == NEW_LINE_BYTE {
                break;
            }
            at += 1;
        }
        proof {
            lemma_first_linefeed_at(tail@, at as int);
            assert(tail@ == rb@.skip(rb@.len() - depth));
        }
        if at < tail.len() {
            joined(slice_subrange(tail, at, tail.len()), &[])
        } else {
            joined(tail, &[])
        }
    }

    /// Takes the chunk `nb` that was just read into the read buffer
    /// `old_rb` and says whether the prompt is now in it. An empty chunk
    /// changes nothing and finds nothing.
    pub fn _read_and_check_for_prompt(&self, old_rb: &[u8], nb: &[u8]) -> (r: (bool, Vec<u8>))
        ensures
            nb@.len() == 0 ==> !r.0 && r.1@ == old_rb@,
            nb@.len() > 0 ==> r.1@ == old_rb@ + search_window(
                nb@,
                self.args.prompt_search_depth as int,
            ) && r.0 == pattern_matches(self.args.prompt_pattern@, r.1@),
    {
        if nb.len() == 0 {
            return (false, joined(old_rb, nb));
        }
        let pnb = self.process_read_buf(nb);
        let rb = joined(old_rb, pnb.as_slice());
        let found = self.args.prompt_pattern.is_match(rb.as_slice());
        (found, rb)
    }

    /// Takes the chunk `nb` that was just read into the read buffer
    /// `old_rb` and says whether *any* of `prompts` is now in it. An empty
    /// chunk changes nothing and finds nothing.
    pub fn _read_and_check_for_any_prompt(&self, old_rb: &[u8], nb: &[u8], prompts: &[Pattern]) -> (r:
        (bool, Vec<u8>))
        ensures
            nb@.len() == 0 ==> !r.0 && r.1@ == old_rb@,
            nb@.len() > 0 ==> r.1@ == old_rb@ + search_window(
                nb@,
                self.args.prompt_search_depth as int,
            ) && r.0 == any_matches(pattern_texts(prompts@), r.1@),
    {
        if nb.len() == 0 {
            return (false, joined(old_rb, nb));
        }
        let pnb = self.process_read_buf(nb);
        let rb = joined(old_rb, pnb.as_slice());
        let found = any_prompt_matches(prompts, rb.as_slice());
        (found, rb)
    }

    /// Takes the chunk `nb` that was just read into the read buffer
    /// `old_rb` and says whether all bytes of `explicit` are now in it, in
    /// order. An empty chunk changes nothing and finds nothing.
    pub fn _read_and_check_for_fuzzy(&self, old_rb: &[u8], nb: &[u8], explicit: &[u8]) -> (r: (
        bool,
        Vec<u8>,
    ))
        ensures
            r.1@ == old_rb@ + nb@,
            r.0 == (nb@.len() > 0 && is_subsequence(explicit@, r.1@)),
    {
        let rb = joined(old_rb, nb);
        if nb.len() == 0 {
            return (false, rb);
        }
        let found = roughly_contains(explicit, rb.as_slice());
        (found, rb)
    }

    /// Takes the chunk `nb` that was just read into the read buffer
    /// `old_rb` and says whether `explicit` now stands in it. An empty
    /// chunk changes nothing and finds nothing.
    pub fn _read_and_check_for_explicit(&self, old_rb: &[u8], nb: &[u8], explicit: &[u8]) -> (r: (
        bool,
        Vec<u8>,
    ))
        ensures
            r.1@ == old_rb@ + nb@,
            r.0 == (nb@.len() > 0 && contains_contiguous(r.1@, explicit@)),
    {
        let rb = joined(old_rb, nb);
        if nb.len() == 0 {
            return (false, rb);
        }
        let found = is_sub(rb.as_slice(), explicit);
        (found, rb)
    }
}

/// What a read waits for.
pub enum Condition {
    /// The prompt pattern of the channel matches.
    Prompt,
    /// One of these patterns matches.
    AnyPrompt(Vec<Pattern>),
    /// All of these bytes have shown up, in order.
    Fuzzy(Vec<u8>),
    /// These bytes have shown up, one next to the other.
    Explicit(Vec<u8>),
}

/// Reading until a condition holds of what was read: the read buffer so
/// far, and whether the condition was met when the last chunk came in.
pub struct ReadUntil {
    /// What the read waits for.
    pub condition: Condition,
    /// What was read so far.
    pub rb: Vec<u8>,
    /// Whether the condition held when the last chunk was taken in.
    pub found: bool,
    /// Whether a read was asked for already.
    pub polled: bool,
}

/// The read buffer after the chunk `nb` came in.
pub open spec fn buffer_after(
    condition: Condition,
    depth: int,
    rb: Seq<u8>,
    nb: Seq<u8>,
) -> Seq<u8> {
    if nb.len() == 0 {
        rb
    } else {
        match condition {
            Condition::Prompt | Condition::AnyPrompt(_) => rb + search_window(nb, depth),
            Condition::Fuzzy(_) | Condition::Explicit(_) => rb + nb,
        }
    }
}

/// Whether `condition` holds of the read buffer `rb`, on a channel with
/// the prompt pattern `prompt`.
pub open spec fn condition_holds(condition: Condition, prompt: Seq<char>, rb: Seq<u8>) -> bool {
    match condition {
        Condition::Prompt => pattern_matches(prompt, rb),
        Condition::AnyPrompt(prompts) => any_matches(pattern_texts(prompts@), rb),
        Condition::Fuzzy(explicit) => is_subsequence(explicit@, rb),
        Condition::Explicit(explicit) => contains_contiguous(rb, explicit@),
    }
}

impl ReadUntil {
    /// A read that has taken in nothing yet.
    pub open spec fn is_fresh(self, condition: Condition) -> bool {
        &&& self.condition == condition
        &&& self.rb@.len() == 0
        &&& !self.found
        &&& !self.polled
    }

    /// A read for `condition` that has taken in nothing yet.
    pub fn new(condition: Condition) -> (reading: Self)
        ensures
            reading.is_fresh(condition),
    {
        ReadUntil { condition, rb: Vec::new(), found: false, polled: false }
    }

    /// Takes in the chunk that was read. An empty chunk changes nothing
    /// but that the condition counts as not met.
    pub fn receive(&mut self, channel: &Channel, nb: &[u8])
        ensures
            final(self).condition == old(self).condition,
            final(self).polled == old(self).polled,
            final(self).rb@ == buffer_after(
                old(self).condition,
                channel.args.prompt_search_depth as int,
                old(self).rb@,
                nb@,
            ),
            final(self).found == (nb@.len() > 0 && condition_holds(
                old(self).condition,
                channel.args.prompt_pattern@,
                final(self).rb@,
            )),
    {
        let (found, rb) = match &self.condition {
            Condition::Prompt => channel._read_and_check_for_prompt(self.rb.as_slice(), nb),
            Condition::AnyPrompt(prompts) => channel._read_and_check_for_any_prompt(
                self.rb.as_slice(),
                nb,
                prompts.as_slice(),
            ),
            Condition::Fuzzy(explicit) => channel._read_and_check_for_fuzzy(
                self.rb.as_slice(),
                nb,
                explicit.as_slice(),
            ),
            Condition::Explicit(explicit) => channel._read_and_check_for_explicit(
                self.rb.as_slice(),
                nb,
                explicit.as_slice(),
            ),
        };
        self.rb = rb;
        self.found = found;
    }

    /// What to do next: hand out the read buffer once the condition is met;
    /// until then read again, after the read delay of the channel from the
    /// second read on.
    pub fn poll(&mut self, channel: &Channel) -> (action: Action)
        ensures
            final(self).condition == old(self).condition,
            final(self).rb == old(self).rb,
            final(self).found == old(self).found,
            old(self).found ==> final(self).polled == old(self).polled && (action matches Action::Done(
                rb,
            ) && rb@ == old(self).rb@),
            !old(self).found ==> final(self).polled && (action matches Action::Read(pause) && pause == (
            if old(self).polled {
                channel.args.read_delay
            } else {
                0
            })),
    {
        if self.found {
            return Action::Done(joined(self.rb.as_slice(), &[]));
        }
        let pause: u64 = if self.polled {
            channel.args.read_delay
        } else {
            0
        };
        self.polled = true;
        Action::Read(pause)
    }
}

impl Channel {
    /// Read until the prompt pattern of the channel is seen.
    pub fn read_until_prompt(&self) -> (reading: ReadUntil)
        ensures
            reading.is_fresh(Condition::Prompt),
    {
        ReadUntil::new(Condition::Prompt)
    }

    /// Read until any prompt in the given slice of patterns is seen.
    pub fn read_until_any_prompt(&self, prompts: &Vec<Pattern>) -> (reading: ReadUntil)
        ensures
            reading.condition matches Condition::AnyPrompt(watched) && pattern_texts(watched@)
                == pattern_texts(prompts@),
            reading.rb@.len() == 0,
            !reading.found,
            !reading.polled,
    {
        ReadUntil::new(Condition::AnyPrompt(crate::channel::operation::clone_patterns(prompts)))
    }

    /// Read until all bytes of `explicit` were seen in the device output,
    /// in order, whatever stands between them.
    pub fn read_until_fuzzy(&self, explicit: &[u8]) -> (reading: ReadUntil)
        ensures
            reading.condition matches Condition::Fuzzy(needle) && needle@ == explicit@,
            reading.rb@.len() == 0,
            !reading.found,
            !reading.polled,
    {
        ReadUntil::new(Condition::Fuzzy(joined(explicit, &[])))
    }

    /// Read until exactly `explicit` is seen in the device output.
    pub fn read_until_explicit(&self, explicit: &[u8]) -> (reading: ReadUntil)
        ensures
            reading.condition matches Condition::Explicit(needle) && needle@ == explicit@,
            reading.rb@.len() == 0,
            !reading.found,
            !reading.polled,
    {
        ReadUntil::new(Condition::Explicit(joined(explicit, &[])))
    }
}

} // verus!
