//! The message bus: a fixed set of typed topics with bounded, lossy delivery.
//!
//! A topic retains the newest messages up to its capacity. Publishing never
//! blocks and never fails: once the topic is full the oldest retained message
//! gives way. Each subscriber reads at its own pace through a cursor; one that
//! falls behind is told how many messages it missed and carries on from the
//! oldest message still retained.
use crate::messages::{
    CameraFrame, Diagnostics, EstopCommand, LogControl, LogStatus, Odometry, PowerState,
    ServoStateArray, SkillCommand, VelocityCommand,
};
use std::collections::VecDeque;
use vstd::prelude::*;

verus! {

/// How many messages each topic of the bus retains.
pub const CHANNEL_SIZE: usize = 64;

/// One topic: the messages it retains, oldest first, and how many it has let go.
#[derive(Debug)]
pub struct Topic<T> {
    retained: VecDeque<T>,
    capacity: usize,
    dropped: u64,
}

/// The mathematical content of a [`Topic`].
pub struct TopicView<T> {
    /// The messages still held, oldest first.
    pub retained: Seq<T>,
    /// The most messages the topic holds at once.
    pub capacity: nat,
    /// How many messages have been pushed out so far.
    pub dropped: nat,
}

impl<T> TopicView<T> {
    /// What holds of every topic: it has room for at least one message, holds no
    /// more than its capacity, and its message count fits the sequence numbers.
    pub open spec fn wf(self) -> bool {
        &&& 0 < self.capacity <= usize::MAX
        &&& self.retained.len() <= self.capacity
        &&& self.published() <= u64::MAX
    }

    /// How many messages were ever published; also the sequence number the next
    /// one will get.
    pub open spec fn published(self) -> nat {
        self.dropped + self.retained.len()
    }

    /// The topic after one more message: appended, and the oldest let go when
    /// the topic was full.
    pub open spec fn publish(self, message: T) -> TopicView<T> {
        if self.retained.len() < self.capacity {
            TopicView { retained: self.retained.push(message), ..self }
        } else {
            TopicView {
                retained: self.retained.subrange(1, self.retained.len() as int).push(message),
                dropped: self.dropped + 1,
                ..self
            }
        }
    }

    /// The messages a subscriber whose cursor stands at `next_seq` has yet to
    /// receive, in arrival order.
    pub open spec fn pending(self, next_seq: u64) -> Seq<T> {
        if next_seq as nat <= self.dropped {
            self.retained
        } else if (next_seq as nat) < self.published() {
            self.retained.subrange(next_seq - self.dropped, self.retained.len() as int)
        } else {
            Seq::empty()
        }
    }

    /// How many messages a subscriber whose cursor stands at `next_seq` has missed.
    pub open spec fn missed(self, next_seq: u64) -> nat {
        if (next_seq as nat) < self.dropped {
            (self.dropped - next_seq) as nat
        } else {
            0
        }
    }
}

impl<T> View for Topic<T> {
    type V = TopicView<T>;

    closed spec fn view(&self) -> TopicView<T> {
        TopicView {
            retained: self.retained@,
            capacity: self.capacity as nat,
            dropped: self.dropped as nat,
        }
    }
}

/// A subscriber's place in a topic: the sequence number of the message it
/// receives next.
#[derive(Debug, Clone, Copy, PartialEq, Eq, Structural)]
pub struct Subscription {
    pub next_seq: u64,
}

/// What a subscriber gets when it asks a topic for its next message.
#[derive(Debug)]
pub enum Delivery<'a, T> {
    /// The next message in arrival order.
    Message(&'a T),
    /// The subscriber fell behind and missed this many messages; its cursor now
    /// stands at the oldest message still retained.
    Lagged(u64),
    /// Nothing has been published since the subscriber's last message.
    Empty,
}

impl<T> Topic<T> {
    #[verifier::type_invariant]
    spec fn well_formed(self) -> bool {
        &&& 0 < self.capacity
        &&& self.retained@.len() <= self.capacity
        &&& self.dropped + self.retained@.len() <= u64::MAX
    }

    /// An empty topic that retains up to `capacity` messages.
    pub fn new(capacity: usize) -> (topic: Topic<T>)
        requires
            capacity > 0,
        ensures
            topic@ == (TopicView {
                retained: Seq::<T>::empty(),
                capacity: capacity as nat,
                dropped: 0,
            }),
            topic@.wf(),
    {
        Topic { retained: VecDeque::new(), capacity, dropped: 0 }
    }

    /// How many messages were ever published on this topic.
    pub fn published(&self) -> (count: u64)
        ensures
            count as nat == self@.published(),
            self@.wf(),
    {
        proof {
            use_type_invariant(self);
        }
        self.dropped + self.retained.len() as u64
    }

    /// Publishes a message. With no subscriber it reaches no one, since a later
    /// subscriber starts after it; when the topic is full the oldest retained
    /// message is let go to admit it.
    pub fn publish(&mut self, message: T)
        requires
            old(self)@.published() < u64::MAX,
        ensures
            final(self)@ == old(self)@.publish(message),
            final(self)@.wf(),
    {
        proof {
            use_type_invariant(&*self);
        }
        let mut emptied = Topic {
            retained: VecDeque::new(),
            capacity: self.capacity,
            dropped: self.dropped,
        };
        core::mem::swap(self, &mut emptied);
        let Topic { retained, capacity, dropped } = emptied;
        let mut retained = retained;
        let mut dropped = dropped;
        if retained.len() >= capacity {
            let _ = retained.pop_front();
            dropped = dropped + 1;
        }
        retained.push_back(message);
        *self = Topic { retained, capacity, dropped };
    }

    /// Subscribes: the subscriber will receive the messages published from now
    /// on, and none of those published before.
    pub fn subscribe(&self) -> (subscription: Subscription)
        ensures
            self@.wf(),
            subscription.next_seq as nat == self@.published(),
            self@.pending(subscription.next_seq) == Seq::<T>::empty(),
            self@.missed(subscription.next_seq) == 0,
    {
        Subscription { next_seq: self.published() }
    }

    /// Hands the subscriber its next message, or tells it that it fell behind, or
    /// that nothing is waiting. Messages come in arrival order; after a lag
    /// notice the subscriber carries on from the oldest retained message.
    pub fn recv<'a>(&'a self, subscription: &mut Subscription) -> (delivery: Delivery<'a, T>)
        ensures
            self@.wf(),
            match delivery {
                Delivery::Lagged(missed) => {
                    &&& self@.missed(old(subscription).next_seq) > 0
                    &&& missed as nat == self@.missed(old(subscription).next_seq)
                    &&& final(subscription).next_seq as nat == self@.dropped
                },
                Delivery::Message(message) => {
                    &&& self@.missed(old(subscription).next_seq) == 0
                    &&& self@.pending(old(subscription).next_seq).len() > 0
                    &&& *message == self@.pending(old(subscription).next_seq)[0]
                    &&& final(subscription).next_seq == old(subscription).next_seq + 1
                },
                Delivery::Empty => {
                    &&& self@.missed(old(subscription).next_seq) == 0
                    &&& self@.pending(old(subscription).next_seq).len() == 0
                    &&& *final(subscription) == *old(subscription)
                },
            },
    {
        proof {
            use_type_invariant(self);
        }
        let next = subscription.next_seq;
        if next < self.dropped {
            subscription.next_seq = self.dropped;
            Delivery::Lagged(self.dropped - next)
        } else if next - self.dropped < self.retained.len() as u64 {
            let index: usize = (next - self.dropped) as usize;
            subscription.next_seq = next + 1;
            Delivery::Message(&self.retained[index])
        } else {
            Delivery::Empty
        }
    }
}

/// Delivery law: for a subscriber that has missed nothing, a newly published
/// message joins the end of what it has yet to receive; only when a full
/// capacity of messages is already waiting for it does the oldest of them give
/// way, and the subscriber has then missed exactly that one.
pub proof fn lemma_publish_delivers<T>(topic: TopicView<T>, next_seq: u64, message: T)
    requires
        topic.wf(),
        topic.dropped <= next_seq as nat <= topic.published(),
    ensures
        topic.publish(message).published() == topic.published() + 1,
        topic.pending(next_seq).len() < topic.capacity ==> {
            &&& topic.publish(message).missed(next_seq) == 0
            &&& topic.publish(message).pending(next_seq) == topic.pending(next_seq).push(message)
        },
        topic.pending(next_seq).len() == topic.capacity ==> {
            &&& topic.publish(message).missed(next_seq) == 1
            &&& topic.publish(message).pending(next_seq) == topic.pending(next_seq).subrange(
                1,
                topic.capacity as int,
            ).push(message)
        },
{
    let after = topic.publish(message);
    if topic.pending(next_seq).len() < topic.capacity {
        assert(after.pending(next_seq) =~= topic.pending(next_seq).push(message));
    } else {
        assert(after.pending(next_seq) =~= topic.pending(next_seq).subrange(
            1,
            topic.capacity as int,
        ).push(message));
    }
}

/// Subscription law: a new subscriber has nothing waiting and has missed
/// nothing, whatever was published before it subscribed.
pub proof fn lemma_no_replay<T>(topic: TopicView<T>)
    requires
        topic.wf(),
    ensures
        topic.pending(topic.published() as u64) == Seq::<T>::empty(),
        topic.missed(topic.published() as u64) == 0,
{
}

/// The bus: one topic for each kind of message the components exchange.
#[derive(Debug)]
pub struct Bus {
    pub cmd_in: Topic<VelocityCommand>,
    pub cmd_out: Topic<VelocityCommand>,
    pub cmd_skill: Topic<SkillCommand>,
    pub cmd_estop: Topic<EstopCommand>,
    pub log_control: Topic<LogControl>,
    pub log_status: Topic<LogStatus>,
    pub odometry: Topic<Odometry>,
    pub servos: Topic<ServoStateArray>,
    pub power: Topic<PowerState>,
    pub diagnostics: Topic<Diagnostics>,
    pub camera: Topic<CameraFrame>,
}

/// An empty topic of the bus's capacity.
pub open spec fn fresh_topic<T>() -> TopicView<T> {
    TopicView { retained: Seq::<T>::empty(), capacity: CHANNEL_SIZE as nat, dropped: 0 }
}

impl Bus {
    /// A bus on which nothing has been published yet.
    pub fn new() -> (bus: Bus)
        ensures
            bus.cmd_in@ == fresh_topic::<VelocityCommand>(),
            bus.cmd_out@ == fresh_topic::<VelocityCommand>(),
            bus.cmd_skill@ == fresh_topic::<SkillCommand>(),
            bus.cmd_estop@ == fresh_topic::<EstopCommand>(),
            bus.log_control@ == fresh_topic::<LogControl>(),
            bus.log_status@ == fresh_topic::<LogStatus>(),
            bus.odometry@ == fresh_topic::<Odometry>(),
            bus.servos@ == fresh_topic::<ServoStateArray>(),
            bus.power@ == fresh_topic::<PowerState>(),
            bus.diagnostics@ == fresh_topic::<Diagnostics>(),
            bus.camera@ == fresh_topic::<CameraFrame>(),
    {
        Bus {
            cmd_in: Topic::new(CHANNEL_SIZE),
            cmd_out: Topic::new(CHANNEL_SIZE),
            cmd_skill: Topic::new(CHANNEL_SIZE),
            cmd_estop: Topic::new(CHANNEL_SIZE),
            log_control: Topic::new(CHANNEL_SIZE),
            log_status: Topic::new(CHANNEL_SIZE),
            odometry: Topic::new(CHANNEL_SIZE),
            servos: Topic::new(CHANNEL_SIZE),
            power: Topic::new(CHANNEL_SIZE),
            diagnostics: Topic::new(CHANNEL_SIZE),
            camera: Topic::new(CHANNEL_SIZE),
        }
    }
}

} // verus!
