//! Messages that features post to the single consumer, and the queue that
//! carries them.

use std::collections::VecDeque;
use vstd::prelude::*;

verus! {

/// What a producer tells the consumer.
#[derive(Clone, Copy, Debug, PartialEq, Eq, Structural)]
pub enum Message {
    /// The feature with this index may have changed.
    FeatureUpdate(usize),
    /// Every feature is to be recomputed.
    UpdateAll,
    /// The consumer is to stop.
    Kill,
}

/// One thing a notifier does between two waits on its event source.
#[derive(Clone, Copy, Debug, PartialEq, Eq, Structural)]
pub enum Action {
    /// Wait this many seconds.
    Sleep(u64),
    /// Put this message on the queue.
    Post(Message),
}

/// The message a feature posts about itself.
pub fn send_message(id: usize) -> (action: Action)
    ensures
        action == Action::Post(Message::FeatureUpdate(id)),
{
    Action::Post(Message::FeatureUpdate(id))
}

/// A first-in, first-out queue of messages: what the producers have sent and
/// the consumer has not yet read.
pub struct Channel {
    queue: VecDeque<Message>,
}

impl View for Channel {
    type V = Seq<Message>;

    closed spec fn view(&self) -> Seq<Message> {
        self.queue@
    }
}

impl Channel {
    /// An empty queue.
    pub fn create() -> (channel: Self)
        ensures
            channel@ == Seq::<Message>::empty(),
    {
        Channel { queue: VecDeque::new() }
    }

    /// Number of messages waiting.
    pub fn len(&self) -> (n: usize)
        ensures
            n == self@.len(),
    {
        self.queue.len()
    }

    /// Appends a message behind all that are waiting.
    pub fn send(&mut self, message: Message)
        ensures
            final(self)@ == old(self)@.push(message),
    {
        self.queue.push_back(message);
    }

    /// Takes the message that has waited longest, if there is one.
    pub fn read(&mut self) -> (message: Option<Message>)
        ensures
            old(self)@.len() == 0 ==> message.is_none() && final(self)@ == old(self)@,
            old(self)@.len() > 0 ==> message == Some(old(self)@[0])
                && final(self)@ == old(self)@.skip(1),
    {
        let message = self.queue.pop_front();
        proof {
            if old(self)@.len() > 0 {
                assert(self@ =~= old(self)@.skip(1));
            }
        }
        message
    }
}

} // verus!
