//! Bounded first-in first-out channel of byte chunks.

use std::collections::VecDeque;
use vstd::prelude::*;

verus! {

/// Number of chunks a channel holds before its producer has to wait.
pub const CHANNEL_CAPACITY: usize = 64;

/// A bounded queue of byte chunks that hands them out in the order they went in.
#[derive(Debug)]
pub struct Channel {
    queue: VecDeque<Vec<u8>>,
}

impl View for Channel {
    type V = Seq<Seq<u8>>;

    closed spec fn view(&self) -> Seq<Seq<u8>> {
        self.queue@.map_values(|chunk: Vec<u8>| chunk@)
    }
}

impl Channel {
    #[verifier::type_invariant]
    spec fn bounded(self) -> bool {
        self.queue@.len() <= CHANNEL_CAPACITY
    }

    /// An empty channel.
    pub fn new() -> (channel: Channel)
        ensures
            channel@ == Seq::<Seq<u8>>::empty(),
    {
        let channel = Channel { queue: VecDeque::new() };
        assert(channel@ =~= Seq::<Seq<u8>>::empty());
        channel
    }

    /// Number of chunks waiting in the channel.
    pub fn len(&self) -> (n: usize)
        ensures
            n == self@.len(),
            n <= CHANNEL_CAPACITY,
    {
        proof {
            use_type_invariant(self);
        }
        self.queue.len()
    }

    /// Whether no chunk waits in the channel.
    pub fn is_empty(&self) -> (empty: bool)
        ensures
            empty == (self@.len() == 0),
    {
        self.queue.len() == 0
    }

    /// Whether the channel holds as many chunks as it can.
    pub fn is_full(&self) -> (full: bool)
        ensures
            full == (self@.len() >= CHANNEL_CAPACITY),
    {
        self.queue.len() >= CHANNEL_CAPACITY
    }

    /// Appends `chunk` when there is room, and hands it back when the channel is full.
    pub fn push(&mut self, chunk: Vec<u8>) -> (refused: Option<Vec<u8>>)
        ensures
            old(self)@.len() < CHANNEL_CAPACITY ==> refused is None && final(self)@ == old(
                self,
            )@.push(chunk@),
            old(self)@.len() >= CHANNEL_CAPACITY ==> refused == Some(chunk) && final(self)@
                == old(self)@,
    {
        proof {
            use_type_invariant(&*self);
        }
        if self.queue.len() < CHANNEL_CAPACITY {
            let mut queue = self.take_queue();
            queue.push_back(chunk);
            self.queue = queue;
            assert(self@ =~= old(self)@.push(chunk@));
            None
        } else {
            Some(chunk)
        }
    }

    /// Moves the queue out of the channel, which is empty until a queue is put back.
    /// The bound on the length is checked when that happens.
    fn take_queue(&mut self) -> (queue: VecDeque<Vec<u8>>)
        ensures
            queue == old(self).queue,
            final(self).queue@.len() == 0,
    {
        let mut queue: VecDeque<Vec<u8>> = VecDeque::new();
        core::mem::swap(&mut self.queue, &mut queue);
        queue
    }

    /// Removes and returns the oldest chunk, if any.
    pub fn pop(&mut self) -> (chunk: Option<Vec<u8>>)
        ensures
            old(self)@.len() == 0 ==> chunk is None && final(self)@ == old(self)@,
            old(self)@.len() > 0 ==> chunk is Some && chunk->0@ == old(self)@[0] && final(self)@
                == old(self)@.drop_first(),
    {
        proof {
            use_type_invariant(&*self);
        }
        let mut queue = self.take_queue();
        let chunk = queue.pop_front();
        self.queue = queue;
        assert(self@ =~= if old(self)@.len() == 0 {
            old(self)@
        } else {
            old(self)@.drop_first()
        });
        chunk
    }
}

} // verus!
