//! The queues of what the manager has pending for its peers and for its user.

use std::collections::VecDeque;
use vstd::prelude::*;
use crate::key::PublicKey;
use crate::messages::LSPSMessage;

verus! {

/// The record of sent requests after `messages` were sent as well: each request among them is
/// entered, a later one in place of an earlier one with the same id.
pub open spec fn recorded(
    request_ids: Map<Seq<char>, Seq<char>>,
    messages: Seq<(PublicKey, LSPSMessage)>,
) -> Map<Seq<char>, Seq<char>>
    decreases messages.len(),
{
    if messages.len() == 0 {
        request_ids
    } else {
        let before = recorded(request_ids, messages.drop_last());
        match messages.last().1.request_id_and_method() {
            Some((request_id, method)) => before.insert(request_id, method),
            None => before,
        }
    }
}

/// Messages that wait to be sent, each with the node that it goes to, oldest first; and the
/// callback, if one is set, that is to be called after every message that is pushed.
pub struct MessageQueue<F> {
    queue: Vec<(PublicKey, LSPSMessage)>,
    process_msgs_callback: Option<F>,
}

impl<F> View for MessageQueue<F> {
    type V = Seq<(PublicKey, LSPSMessage)>;

    closed spec fn view(&self) -> Seq<(PublicKey, LSPSMessage)> {
        self.queue@
    }
}

impl<F> MessageQueue<F> {
    /// The callback that is set.
    pub closed spec fn callback(self) -> Option<F> {
        self.process_msgs_callback
    }

    /// How often the callback is to be called after `pushed` messages were pushed.
    pub open spec fn calls_after(self, pushed: nat) -> nat {
        if self.callback() is Some {
            pushed
        } else {
            0
        }
    }

    /// An empty queue without a callback.
    pub fn new() -> (queue: Self)
        ensures
            queue@.len() == 0,
            queue.callback() is None,
    {
        MessageQueue { queue: Vec::new(), process_msgs_callback: None }
    }

    /// Sets the callback, in place of any earlier one.
    pub fn set_process_msgs_callback(&mut self, callback: F)
        ensures
            final(self)@ == old(self)@,
            final(self).callback() == Some(callback),
    {
        self.process_msgs_callback = Some(callback);
    }

    /// The callback that is set.
    pub fn process_msgs_callback(&self) -> (callback: Option<&F>)
        ensures
            match callback {
                Some(callback) => self.callback() == Some(*callback),
                None => self.callback() is None,
            },
    {
        self.process_msgs_callback.as_ref()
    }

    /// Adds a message at the end. Returns how often the callback is to be called for it.
    pub fn enqueue(&mut self, counterparty_node_id: &PublicKey, msg: LSPSMessage) -> (calls: usize)
        ensures
            final(self)@ == old(self)@.push((*counterparty_node_id, msg)),
            final(self).callback() == old(self).callback(),
            calls == old(self).calls_after(1),
    {
        self.queue.push((*counterparty_node_id, msg));
        if self.process_msgs_callback.is_some() {
            1
        } else {
            0
        }
    }

    /// Adds messages at the end, in their order. Returns how often the callback is to be
    /// called for them.
    pub fn enqueue_all(&mut self, messages: Vec<(PublicKey, LSPSMessage)>) -> (calls: usize)
        ensures
            final(self)@ == old(self)@ + messages@,
            final(self).callback() == old(self).callback(),
            calls == old(self).calls_after(messages@.len()),
    {
        let mut messages = messages;
        let pushed: usize = messages.len();
        self.queue.append(&mut messages);
        if self.process_msgs_callback.is_some() {
            pushed
        } else {
            0
        }
    }

    /// Empties the queue, and returns what it held, in order.
    pub fn get_and_clear_pending_msgs(&mut self) -> (messages: Vec<(PublicKey, LSPSMessage)>)
        ensures
            messages@ == old(self)@,
            final(self)@.len() == 0,
            final(self).callback() == old(self).callback(),
    {
        let mut messages: Vec<(PublicKey, LSPSMessage)> = Vec::new();
        messages.append(&mut self.queue);
        assert(messages@ =~= old(self)@);
        messages
    }
}

/// Events that wait for the user, oldest first.
pub struct EventQueue<E> {
    queue: VecDeque<E>,
}

impl<E> View for EventQueue<E> {
    type V = Seq<E>;

    closed spec fn view(&self) -> Seq<E> {
        self.queue@
    }
}

impl<E> EventQueue<E> {
    /// An empty queue.
    pub fn new() -> (queue: Self)
        ensures
            queue@.len() == 0,
    {
        EventQueue { queue: VecDeque::new() }
    }

    /// Adds events at the end, in their order.
    pub fn enqueue_all(&mut self, events: Vec<E>)
        ensures
            final(self)@ == old(self)@ + events@,
    {
        for event in pushed: events
            invariant
                pushed.seq() == events@,
                self@ =~= old(self)@ + events@.take(pushed.index()),
        {
            self.queue.push_back(event);
        }
    }

    /// Removes and returns the oldest event; nothing if there is none.
    pub fn next_event(&mut self) -> (event: Option<E>)
        ensures
            match event {
                Some(event) => old(self)@.len() > 0 && event == old(self)@[0] && final(self)@ == old(
                    self,
                )@.skip(1),
                None => old(self)@.len() == 0 && final(self)@ == old(self)@,
            },
    {
        let event = self.queue.pop_front();
        proof {
            if old(self)@.len() > 0 {
                assert(self@ =~= old(self)@.skip(1));
            }
        }
        event
    }

    /// Empties the queue, and returns what it held, in order.
    pub fn get_and_clear_pending_events(&mut self) -> (events: Vec<E>)
        ensures
            events@ == old(self)@,
            final(self)@.len() == 0,
    {
        let mut events: Vec<E> = Vec::new();
        while self.queue.len() > 0
            invariant
                events@ + self@ =~= old(self)@,
            decreases self@.len(),
        {
            if let Some(event) = self.queue.pop_front() {
                events.push(event);
            }
        }
        events
    }
}

} // verus!
