use crate::channel::channel::{Channel, QUEUE_FULL};
use crate::channel::constants::ANSI_ESCAPE_BYTE;
use crate::channel::patterns::{without_matches, ANSI_PATTERN};
use crate::channel::util::strip_ansi;
use crate::errors::ScrapliError;
use crate::util::queue::Queue;
use vstd::prelude::*;
use vstd::string::StringExecFns;

verus! {

/// The message of the error for a transport whose lock cannot be had.
pub const TRANSPORT_LOCK_FAILED: &'static str =
    "failed acquiring transport lock in channel read loop";

/// The message of the error for a failed read of the transport begins
/// with this; what the transport said follows.
pub const TRANSPORT_READ_FAILED: &'static str =
    "encountered error while reading from transport in channel read loop, error: ";

/// How one read of the transport by the read loop went.
pub enum ReadOutcome {
    /// The lock of the transport could not be had.
    LockFailed,
    /// The transport failed.
    Failed(ScrapliError),
    /// The transport returned these bytes; none where it had nothing.
    Bytes(Vec<u8>),
}

/// What is queued of the bytes that the transport returned: the bytes
/// without their ANSI escape sequences where they hold the escape byte, the
/// bytes themselves where they do not.
pub open spec fn cleaned(b: Seq<u8>) -> Seq<u8> {
    if b.contains(ANSI_ESCAPE_BYTE) {
        without_matches(ANSI_PATTERN@, b)
    } else {
        b
    }
}

/// The queue `queue` after one turn of the read loop whose read of the
/// transport returned `read`, where the queue is not full: what is left of
/// the read after cleaning is put at the back, unless nothing is left.
pub open spec fn after_turn(queue: Seq<Seq<u8>>, read: Seq<u8>) -> Seq<Seq<u8>> {
    if cleaned(read).len() == 0 {
        queue
    } else {
        queue.push(cleaned(read))
    }
}

/// The queue `queue` after one turn of the read loop for each of these
/// reads of the transport, in their order, where no turn finds the queue
/// full.
pub open spec fn after_turns(queue: Seq<Seq<u8>>, reads: Seq<Seq<u8>>) -> Seq<Seq<u8>>
    decreases reads.len(),
{
    if reads.len() == 0 {
        queue
    } else {
        after_turn(after_turns(queue, reads.drop_last()), reads.last())
    }
}

/// The bytes of these reads of the transport, each read cleaned, in the
/// order of the reads.
pub open spec fn cleaned_stream(reads: Seq<Seq<u8>>) -> Seq<u8>
    decreases reads.len(),
{
    if reads.len() == 0 {
        Seq::empty()
    } else {
        cleaned_stream(reads.drop_last()) + cleaned(reads.last())
    }
}

/// Those of these chunks that are not empty, in their order.
pub open spec fn nonempty_chunks(reads: Seq<Seq<u8>>) -> Seq<Seq<u8>>
    decreases reads.len(),
{
    if reads.len() == 0 {
        Seq::empty()
    } else if reads.last().len() == 0 {
        nonempty_chunks(reads.drop_last())
    } else {
        nonempty_chunks(reads.drop_last()).push(reads.last())
    }
}

/// What the read loop adds to the queue is what the transport returned,
/// cleaned of ANSI escape sequences, byte for byte and in the order in
/// which the transport returned it; what was queued before stays in front.
pub proof fn lemma_read_loop_keeps_bytes_in_order(queue: Seq<Seq<u8>>, reads: Seq<Seq<u8>>)
    ensures
        after_turns(queue, reads).flatten() == queue.flatten() + cleaned_stream(reads),
    decreases reads.len(),
{
    if reads.len() == 0 {
        assert(queue.flatten() + Seq::<u8>::empty() =~= queue.flatten());
    } else {
        lemma_read_loop_keeps_bytes_in_order(queue, reads.drop_last());
        let before = after_turns(queue, reads.drop_last());
        let chunk = cleaned(reads.last());
        if chunk.len() == 0 {
            assert(cleaned_stream(reads.drop_last()) + chunk =~= cleaned_stream(
                reads.drop_last(),
            ));
        } else {
            before.lemma_flatten_push(chunk);
            assert((queue.flatten() + cleaned_stream(reads.drop_last())) + chunk
                =~= queue.flatten() + (cleaned_stream(reads.drop_last()) + chunk));
        }
    }
}

/// Where none of the reads of the transport holds the escape byte, the
/// chunks that the read loop puts at the back of the queue are exactly the
/// reads that are not empty, each once and in the order in which the
/// transport returned them: an empty read queues nothing, and no chunk is
/// dropped, merged or moved.
pub proof fn lemma_read_loop_queues_each_chunk_once(queue: Seq<Seq<u8>>, reads: Seq<Seq<u8>>)
    requires
        forall|i: int| 0 <= i < reads.len() ==> !(#[trigger] reads[i]).contains(ANSI_ESCAPE_BYTE),
    ensures
        after_turns(queue, reads) == queue + nonempty_chunks(reads),
    decreases reads.len(),
{
    if reads.len() == 0 {
        assert(queue + Seq::<Seq<u8>>::empty() =~= queue);
    } else {
        let earlier = reads.drop_last();
        assert forall|i: int| 0 <= i < earlier.len() implies !(#[trigger] earlier[i]).contains(
            ANSI_ESCAPE_BYTE,
        ) by {
            assert(earlier[i] == reads[i]);
        }
        lemma_read_loop_queues_each_chunk_once(queue, earlier);
        assert(!reads[reads.len() - 1].contains(ANSI_ESCAPE_BYTE));
        assert(cleaned(reads.last()) == reads.last());
        if reads.last().len() > 0 {
            assert((queue + nonempty_chunks(earlier)).push(reads.last()) =~= queue
                + nonempty_chunks(earlier).push(reads.last()));
        }
    }
}

/// Whether `b` holds `byte`.
pub fn contains_byte(b: &[u8], byte: u8) -> (r: bool)
    ensures
        r == b@.contains(byte),
{
    let mut i: usize = 0;
    while i < b.len()
        invariant
            i <= b@.len(),
            forall|j: int| 0 <= j < i ==> b@[j] != byte,
        decreases b@.len() - i,
    {
        if b[i] == byte {
            return true;
        }
        i += 1;
    }
    false
}

impl Channel {
    /// One turn of the read loop, after its read of the transport: the
    /// bytes that came, cleaned of ANSI escape sequences, are put at the
    /// back of the queue, unless nothing is left of them. What comes back
    /// is the error to report to the reader of the channel, if any: that
    /// the lock could not be had, that the transport failed, or that the
    /// queue is full. After each turn the loop sleeps for the read delay
    /// and goes on.
    pub fn _read(queue: &mut Queue, outcome: ReadOutcome) -> (report: Option<ScrapliError>)
        requires
            old(queue).well_formed(),
        ensures
            final(queue).well_formed(),
            match outcome {
                ReadOutcome::LockFailed => (report matches Some(e) && e.details@
                    == TRANSPORT_LOCK_FAILED@) && final(queue)@ == old(queue)@,
                ReadOutcome::Failed(err) => (report matches Some(e) && e.details@
                    == TRANSPORT_READ_FAILED@ + err.details@) && final(queue)@ == old(queue)@,
                ReadOutcome::Bytes(b) => if cleaned(b@).len() == 0 || old(queue)@.len()
                    < u32::MAX {
                    report.is_none() && final(queue)@ == after_turn(old(queue)@, b@)
                } else {
                    (report matches Some(e) && e.details@ == QUEUE_FULL@) && final(queue)@ == old(
                        queue,
                    )@
                },
            },
    {
        match outcome {
            ReadOutcome::LockFailed => Some(ScrapliError::new(TRANSPORT_LOCK_FAILED)),
            ReadOutcome::Failed(err) => {
                let mut details = String::from_str(TRANSPORT_READ_FAILED);
                details.append(err.details.as_str());
                Some(ScrapliError { details })
            },
            ReadOutcome::Bytes(b) => {
                let chunk = if contains_byte(b.as_slice(), ANSI_ESCAPE_BYTE) {
                    strip_ansi(b.as_slice())
                } else {
                    b
                };
                if chunk.len() == 0 {
                    return None;
                }
                if queue.get_depth() == u32::MAX {
                    return Some(ScrapliError::new(QUEUE_FULL));
                }
                queue.enqueue(chunk);
                None
            },
        }
    }
}

} // verus!
