//! The bounded outbound queue joining discovery to transport: at most
//! `QUEUE_CAPACITY` messages wait at a time, so a slow transport throttles
//! the discovery side.

use crate::message::Message;
use vstd::prelude::*;

verus! {

/// How many outbound messages may wait at a time.
pub const QUEUE_CAPACITY: usize = 10;

/// A first-in-first-out queue of outbound messages with a hard capacity.
pub struct OutboundQueue {
    items: Vec<Message>,
}

impl OutboundQueue {
    /// The queued messages, oldest first, as seen by contracts.
    pub closed spec fn contents(&self) -> Seq<Message> {
        self.items@
    }

    /// The queue never holds more than `QUEUE_CAPACITY` messages.
    pub open spec fn wf(&self) -> bool {
        self.contents().len() <= QUEUE_CAPACITY
    }

    /// An empty queue.
    pub fn new() -> (r: OutboundQueue)
        ensures
            r.contents() == Seq::<Message>::empty(),
            r.wf(),
    {
        OutboundQueue { items: Vec::new() }
    }

    /// How many messages wait.
    pub fn len(&self) -> (r: usize)
        ensures
            r == self.contents().len(),
    {
        self.items.len()
    }

    /// Appends a message if there is room; a full queue hands it back
    /// unchanged, and the producer must wait for the consumer to pop.
    pub fn try_push(&mut self, m: Message) -> (r: Option<Message>)
        requires
            old(self).wf(),
        ensures
            final(self).wf(),
            old(self).contents().len() < QUEUE_CAPACITY ==> r is None && final(self).contents()
                == old(self).contents().push(m),
            old(self).contents().len() >= QUEUE_CAPACITY ==> r == Some(m) && final(self).contents()
                == old(self).contents(),
    {
        if self.items.len() < QUEUE_CAPACITY {
            self.items.push(m);
            None
        } else {
            Some(m)
        }
    }

    /// Removes and returns the oldest message; `None` on an empty queue.
    pub fn pop(&mut self) -> (r: Option<Message>)
        requires
            old(self).wf(),
        ensures
            final(self).wf(),
            old(self).contents().len() == 0 ==> r is None && final(self).contents() == old(self).contents(),
            old(self).contents().len() > 0 ==> r == Some(old(self).contents()[0])
                && final(self).contents() == old(self).contents().drop_first(),
    {
        if self.items.len() == 0 {
            None
        } else {
            let m = self.items.remove(0);
            proof {
                assert(self.items@ =~= old(self).contents().drop_first());
            }
            Some(m)
        }
    }
}

} // verus!
