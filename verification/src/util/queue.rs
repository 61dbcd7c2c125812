use std::collections::VecDeque;
use vstd::prelude::*;

verus! {

/// A queue of byte chunks. Its view is the sequence of the chunks it holds,
/// the front of the queue first.
pub struct Queue {
    queue: VecDeque<Vec<u8>>,
    depth: u32,
}

impl View for Queue {
    type V = Seq<Seq<u8>>;

    closed spec fn view(&self) -> Seq<Seq<u8>> {
        self.queue@.map_values(|chunk: Vec<u8>| chunk@)
    }
}

/// One operation on a queue, as a producer or a consumer performs it.
pub enum QueueOp {
    /// A chunk is put at the back.
    Enqueue(Seq<u8>),
    /// The chunk at the front, if any, is taken out.
    Dequeue,
}

/// The chunks in a queue that started empty, after `ops` in this order.
pub open spec fn queued_after(ops: Seq<QueueOp>) -> Seq<Seq<u8>>
    decreases ops.len(),
{
    if ops.len() == 0 {
        Seq::empty()
    } else {
        let before = queued_after(ops.drop_last());
        match ops.last() {
            QueueOp::Enqueue(chunk) => before.push(chunk),
            QueueOp::Dequeue => if before.len() == 0 {
                before
            } else {
                before.drop_first()
            },
        }
    }
}

/// All bytes that `ops` put into the queue, in the order in which they were
/// put.
pub open spec fn bytes_enqueued(ops: Seq<QueueOp>) -> Seq<u8>
    decreases ops.len(),
{
    if ops.len() == 0 {
        Seq::empty()
    } else {
        let before = bytes_enqueued(ops.drop_last());
        match ops.last() {
            QueueOp::Enqueue(chunk) => before + chunk,
            QueueOp::Dequeue => before,
        }
    }
}

/// All bytes that the dequeue operations among `ops` handed out, in the
/// order in which they were handed out.
pub open spec fn bytes_dequeued(ops: Seq<QueueOp>) -> Seq<u8>
    decreases ops.len(),
{
    if ops.len() == 0 {
        Seq::empty()
    } else {
        let before = bytes_dequeued(ops.drop_last());
        match ops.last() {
            QueueOp::Enqueue(_) => before,
            QueueOp::Dequeue => {
                let queue = queued_after(ops.drop_last());
                if queue.len() == 0 {
                    before
                } else {
                    before + queue[0]
                }
            },
        }
    }
}

/// Flattening a sequence of chunks: the first chunk, then the rest.
pub proof fn lemma_flatten_first_rest(chunks: Seq<Seq<u8>>)
    requires
        chunks.len() > 0,
    ensures
        chunks.flatten() == chunks[0] + chunks.drop_first().flatten(),
{
}

/// Whatever the interleaving of enqueues and dequeues, the bytes handed out
/// so far followed by the bytes still queued are the bytes put in, in the
/// order in which they were put in: no byte is lost, doubled or reordered.
pub proof fn lemma_queue_keeps_bytes_in_order(ops: Seq<QueueOp>)
    ensures
        bytes_dequeued(ops) + queued_after(ops).flatten() == bytes_enqueued(ops),
    decreases ops.len(),
{
    if ops.len() == 0 {
        assert(Seq::<u8>::empty() + Seq::<Seq<u8>>::empty().flatten() =~= Seq::<u8>::empty());
    } else {
        let earlier = ops.drop_last();
        lemma_queue_keeps_bytes_in_order(earlier);
        let queue = queued_after(earlier);
        match ops.last() {
            QueueOp::Enqueue(chunk) => {
                queue.lemma_flatten_push(chunk);
                assert(bytes_dequeued(earlier) + (queue.flatten() + chunk) =~= (bytes_dequeued(
                    earlier,
                ) + queue.flatten()) + chunk);
            },
            QueueOp::Dequeue => {
                if queue.len() > 0 {
                    lemma_flatten_first_rest(queue);
                    assert((bytes_dequeued(earlier) + queue[0]) + queue.drop_first().flatten()
                        =~= bytes_dequeued(earlier) + (queue[0] + queue.drop_first().flatten()));
                }
            },
        }
    }
}

/// A chunk that is taken from the front of a queue and put back at the
/// front leaves the queue as it was: the next read returns that chunk
/// again, and the others follow as before.
pub proof fn lemma_requeue_undoes_dequeue(queue: Seq<Seq<u8>>)
    requires
        queue.len() > 0,
    ensures
        seq![queue[0]] + queue.drop_first() == queue,
{
    assert(seq![queue[0]] + queue.drop_first() =~= queue);
}

impl Queue {
    /// The depth counter agrees with the number of chunks held. Every
    /// queue made by [`Queue::new`] and changed by the methods below is
    /// well formed.
    pub closed spec fn well_formed(&self) -> bool {
        self.depth == self.queue@.len()
    }

    /// Return an initialized, empty `Queue`.
    pub fn new() -> (q: Self)
        ensures
            q.well_formed(),
            q@ == Seq::<Seq<u8>>::empty(),
    {
        let q = Queue { queue: VecDeque::new(), depth: 0 };
        assert(q@ =~= Seq::<Seq<u8>>::empty());
        q
    }

    /// Re-queue the bytes in `b` to the *front* of the queue.
    pub fn requeue(&mut self, b: Vec<u8>)
        requires
            old(self).well_formed(),
            old(self)@.len() < u32::MAX,
        ensures
            final(self).well_formed(),
            final(self)@ == seq![b@] + old(self)@,
    {
        self.queue.push_front(b);
        self.depth = self.depth + 1;
        assert(self@ =~= seq![b@] + old(self)@);
    }

    /// Queue the bytes in `b` to the *back* of the queue.
    pub fn enqueue(&mut self, b: Vec<u8>)
        requires
            old(self).well_formed(),
            old(self)@.len() < u32::MAX,
        ensures
            final(self).well_formed(),
            final(self)@ == old(self)@.push(b@),
    {
        self.queue.push_back(b);
        self.depth = self.depth + 1;
        assert(self@ =~= old(self)@.push(b@));
    }

    /// De-queue the chunk at the front of the queue. An empty queue hands
    /// out an empty chunk and stays empty.
    pub fn dequeue(&mut self) -> (b: Vec<u8>)
        requires
            old(self).well_formed(),
        ensures
            final(self).well_formed(),
            old(self)@.len() == 0 ==> b@ == Seq::<u8>::empty() && final(self)@ == old(self)@,
            old(self)@.len() > 0 ==> b@ == old(self)@[0] && final(self)@ == old(self)@.drop_first(),
    {
        if self.depth == 0 {
            return Vec::new();
        }
        match self.queue.pop_front() {
            Some(b) => {
                self.depth = self.depth - 1;
                assert(self@ =~= old(self)@.drop_first());
                b
            },
            None => Vec::new(),
        }
    }

    /// De-queue *all* chunks, flattened into a single `Vec` of bytes in
    /// queue order.
    pub fn dequeue_all(&mut self) -> (b: Vec<u8>)
        requires
            old(self).well_formed(),
        ensures
            final(self).well_formed(),
            b@ == old(self)@.flatten(),
            final(self)@ == Seq::<Seq<u8>>::empty(),
    {
        let mut b: Vec<u8> = Vec::new();
        let ghost mut taken: Seq<Seq<u8>> = Seq::empty();
        assert(taken.flatten() =~= Seq::<u8>::empty());
        while self.depth > 0
            invariant
                self.depth == self.queue@.len(),
                old(self)@ == taken + self@,
                b@ == taken.flatten(),
            decreases self.depth,
        {
            match self.queue.pop_front() {
                Some(mut chunk) => {
                    proof {
                        taken.lemma_flatten_push(chunk@);
                        assert(taken.push(chunk@) + self@ =~= old(self)@);
                        taken = taken.push(chunk@);
                    }
                    b.append(&mut chunk);
                    self.depth = self.depth - 1;
                },
                None => {},
            }
        }
        assert(self@ =~= Seq::<Seq<u8>>::empty());
        assert(taken =~= old(self)@);
        b
    }

    /// Returns the current depth of the queue: the number of chunks in it.
    pub fn get_depth(&self) -> (depth: u32)
        requires
            self.well_formed(),
        ensures
            depth == self@.len(),
    {
        self.depth
    }
}

impl Default for Queue {
    fn default() -> (q: Self)
        ensures
            q.well_formed(),
            q@ == Seq::<Seq<u8>>::empty(),
    {
        Self::new()
    }
}

} // verus!
