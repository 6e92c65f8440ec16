//! The channel that carries the reports of one action to the interactive
//! side: one sender, one receiver, reports kept in the order of sending.
//!
//! The two halves do not share memory. The sender stamps each report with
//! the channel's number; whoever carries the message across hands it to a
//! receiver, which takes it only if the number is its own.

use crate::ui::{views_of, InjectionStatus, StatusView};
use std::collections::VecDeque;
use vstd::prelude::*;

verus! {

/// A report on its way, stamped with the number of its channel.
#[derive(Debug)]
pub struct Message {
    pub channel: u64,
    pub event: InjectionStatus,
}

pub struct MessageView {
    pub channel: u64,
    pub event: StatusView,
}

impl View for Message {
    type V = MessageView;

    open spec fn view(&self) -> MessageView {
        MessageView { channel: self.channel, event: self.event@ }
    }
}

/// The sending half. The action that it was made for owns it.
#[derive(Debug)]
pub struct StatusSender {
    channel: u64,
}

impl View for StatusSender {
    type V = u64;

    /// The number of the sender's channel.
    closed spec fn view(&self) -> u64 {
        self.channel
    }
}

impl StatusSender {
    /// The number of the sender's channel.
    pub fn channel(&self) -> (id: u64)
        ensures
            id == self@,
    {
        self.channel
    }

    /// Stamps `event` for this sender's channel. Nothing tells the sender
    /// whether a receiver is still there: a report to one that is gone is
    /// dropped on arrival.
    pub fn send(&self, event: InjectionStatus) -> (message: Message)
        ensures
            message.channel == self@,
            message.event == event,
    {
        Message { channel: self.channel, event }
    }
}

/// The receiving half: the reports that have arrived and were not read yet.
#[derive(Debug)]
pub struct StatusReceiver {
    channel: u64,
    queue: VecDeque<InjectionStatus>,
}

/// What a receiver holds: its channel's number and the unread reports,
/// oldest first.
pub struct ReceiverView {
    pub channel: u64,
    pub queue: Seq<StatusView>,
}

impl View for StatusReceiver {
    type V = ReceiverView;

    closed spec fn view(&self) -> ReceiverView {
        ReceiverView {
            channel: self.channel,
            queue: views_of(self.queue@),
        }
    }
}

impl ReceiverView {
    /// The receiver of channel `id`, with nothing in it.
    pub open spec fn empty(id: u64) -> ReceiverView {
        ReceiverView { channel: id, queue: Seq::empty() }
    }

    /// Whether `message` was sent on this receiver's channel.
    pub open spec fn accepts(self, message: MessageView) -> bool {
        message.channel == self.channel
    }

    /// The receiver after `message` has arrived: a message of its own channel
    /// goes to the back of the queue, any other changes nothing.
    pub open spec fn deliver(self, message: MessageView) -> ReceiverView {
        if self.accepts(message) {
            ReceiverView { channel: self.channel, queue: self.queue.push(message.event) }
        } else {
            self
        }
    }

    /// The receiver after the messages have arrived, one after the other.
    pub open spec fn deliver_all(self, messages: Seq<MessageView>) -> ReceiverView
        decreases messages.len(),
    {
        if messages.len() == 0 {
            self
        } else {
            self.deliver_all(messages.drop_last()).deliver(messages.last())
        }
    }

    /// What the next read returns.
    pub open spec fn front(self) -> Option<StatusView> {
        if self.queue.len() > 0 {
            Some(self.queue[0])
        } else {
            None
        }
    }

    /// The receiver after one read.
    pub open spec fn after_read(self) -> ReceiverView {
        if self.queue.len() > 0 {
            ReceiverView { channel: self.channel, queue: self.queue.subrange(1, self.queue.len() as int) }
        } else {
            self
        }
    }
}

/// The reports among `messages` that were sent on `channel`, in their order.
pub open spec fn events_on(channel: u64, messages: Seq<MessageView>) -> Seq<StatusView>
    decreases messages.len(),
{
    if messages.len() == 0 {
        Seq::empty()
    } else if messages.last().channel == channel {
        events_on(channel, messages.drop_last()).push(messages.last().event)
    } else {
        events_on(channel, messages.drop_last())
    }
}

/// A fresh channel with the number `id`: its sender, and its receiver with
/// nothing in it.
pub fn channel(id: u64) -> (halves: (StatusSender, StatusReceiver))
    ensures
        halves.0@ == id,
        halves.1@ == ReceiverView::empty(id),
{
    let receiver = StatusReceiver { channel: id, queue: VecDeque::new() };
    assert(receiver@.queue =~= Seq::empty());
    (StatusSender { channel: id }, receiver)
}

impl StatusReceiver {
    /// The number of the receiver's channel.
    pub fn channel(&self) -> (id: u64)
        ensures
            id == self@.channel,
    {
        self.channel
    }

    /// The number of reports that wait to be read.
    pub fn pending(&self) -> (n: usize)
        ensures
            n == self@.queue.len(),
    {
        self.queue.len()
    }

    /// Takes in a message that has arrived. One from this receiver's own
    /// channel is queued behind those that came before; one from any other
    /// channel is dropped. Returns whether the message was queued.
    pub fn deliver(&mut self, message: Message) -> (queued: bool)
        ensures
            queued == old(self)@.accepts(message@),
            final(self)@ == old(self)@.deliver(message@),
    {
        if message.channel == self.channel {
            self.queue.push_back(message.event);
            assert(self@.queue =~= old(self)@.queue.push(message@.event));
            true
        } else {
            false
        }
    }

    /// Reads the oldest unread report, if there is one. Never waits.
    pub fn try_receive(&mut self) -> (event: Option<InjectionStatus>)
        ensures
            match event {
                Some(e) => old(self)@.front() == Some(e@),
                None => old(self)@.front() is None,
            },
            final(self)@ == old(self)@.after_read(),
    {
        let event = self.queue.pop_front();
        proof {
            if event is Some {
                assert(self@.queue =~= old(self)@.queue.subrange(
                    1,
                    old(self)@.queue.len() as int,
                ));
            } else {
                assert(self@.queue =~= old(self)@.queue);
            }
        }
        event
    }
}

/// Of any run of messages a receiver queues exactly those of its own
/// channel, behind what it held, in the order of their arrival: nothing is
/// reordered, merged or lost, and no message of another channel gets in.
pub proof fn lemma_deliver_all(receiver: ReceiverView, messages: Seq<MessageView>)
    ensures
        receiver.deliver_all(messages).channel == receiver.channel,
        receiver.deliver_all(messages).queue == receiver.queue + events_on(
            receiver.channel,
            messages,
        ),
    decreases messages.len(),
{
    if messages.len() == 0 {
        assert(receiver.queue + Seq::<StatusView>::empty() =~= receiver.queue);
    } else {
        lemma_deliver_all(receiver, messages.drop_last());
        let before = receiver.deliver_all(messages.drop_last());
        let earlier = events_on(receiver.channel, messages.drop_last());
        if messages.last().channel == receiver.channel {
            assert((receiver.queue + earlier).push(messages.last().event) =~= receiver.queue
                + earlier.push(messages.last().event));
        }
    }
}

/// Reads return the queued reports oldest first: the first read gives the
/// head of the queue and leaves the rest as it was.
pub proof fn lemma_reads_in_order(receiver: ReceiverView, first: StatusView, rest: Seq<StatusView>)
    requires
        receiver.queue == seq![first] + rest,
    ensures
        receiver.front() == Some(first),
        receiver.after_read().queue == rest,
        receiver.after_read().channel == receiver.channel,
{
    assert(receiver.queue.subrange(1, receiver.queue.len() as int) =~= rest);
}

/// The messages that a sender on `channel` makes of `events`.
pub open spec fn stamped(channel: u64, events: Seq<StatusView>) -> Seq<MessageView> {
    Seq::new(events.len(), |i: int| MessageView { channel, event: events[i] })
}

/// What one sender sent on a channel is all there, in the order of sending.
pub proof fn lemma_events_on_own_channel(channel: u64, events: Seq<StatusView>)
    ensures
        events_on(channel, stamped(channel, events)) == events,
    decreases events.len(),
{
    let messages = stamped(channel, events);
    if events.len() == 0 {
        assert(events =~= Seq::empty());
    } else {
        lemma_events_on_own_channel(channel, events.drop_last());
        assert(messages.drop_last() =~= stamped(channel, events.drop_last()));
        assert(events.drop_last().push(events.last()) =~= events);
    }
}

/// Messages of other channels count for nothing on this one.
pub proof fn lemma_events_on_other_channels(channel: u64, messages: Seq<MessageView>)
    requires
        forall|i: int| 0 <= i < messages.len() ==> (#[trigger] messages[i]).channel != channel,
    ensures
        events_on(channel, messages) == Seq::<StatusView>::empty(),
    decreases messages.len(),
{
    if messages.len() > 0 {
        lemma_events_on_other_channels(channel, messages.drop_last());
    }
}

} // verus!
