//! The output end of a frame pipeline: a bounded channel that keeps only the
//! latest unconsumed item. A new item that finds the channel full takes the
//! place of the item still waiting there.
use vstd::prelude::*;

use flume::{Receiver, Sender, TryRecvError, TrySendError};

verus! {

#[verifier::external_type_specification]
#[verifier::external_body]
#[verifier::reject_recursive_types(T)]
pub struct ExSender<T>(Sender<T>);

#[verifier::external_type_specification]
#[verifier::external_body]
#[verifier::reject_recursive_types(T)]
pub struct ExReceiver<T>(Receiver<T>);

/// What one attempt to queue an item gave; the item comes back when it was
/// not queued.
pub enum SendAttempt<T> {
    Sent,
    /// The channel was full.
    Full(T),
    /// No receiver is left.
    Disconnected(T),
}

/// What one attempt to take the waiting item gave.
pub enum ReceiveAttempt<T> {
    Received(T),
    Empty,
    /// No sender is left and nothing is waiting.
    Disconnected,
}

/// `flume::Sender::try_send`: queues `item` without blocking. When the
/// channel is full or has no receiver the same item is handed back. Which of
/// the three comes depends on the other threads that use the channel, so no
/// more is stated.
#[verifier::external_body]
fn channel_try_send<T>(sender: &Sender<T>, item: T) -> (r: SendAttempt<T>)
    ensures
        r matches SendAttempt::Full(back) ==> back == item,
        r matches SendAttempt::Disconnected(back) ==> back == item,
{
    match sender.try_send(item) {
        Ok(()) => SendAttempt::Sent,
        Err(TrySendError::Full(back)) => SendAttempt::Full(back),
        Err(TrySendError::Disconnected(back)) => SendAttempt::Disconnected(back),
    }
}

/// `flume::Receiver::try_recv`: takes the oldest waiting item without
/// blocking. Which outcome comes depends on the other threads that use the
/// channel, so nothing is stated of it.
#[verifier::external_body]
fn channel_try_recv<T>(receiver: &Receiver<T>) -> (r: ReceiveAttempt<T>) {
    match receiver.try_recv() {
        Ok(item) => ReceiveAttempt::Received(item),
        Err(TryRecvError::Empty) => ReceiveAttempt::Empty,
        Err(TryRecvError::Disconnected) => ReceiveAttempt::Disconnected,
    }
}

/// How one attempt to publish an item ended.
#[derive(Debug, PartialEq, Eq)]
pub enum PublishOutcome<T> {
    /// The item is queued.
    Delivered,
    /// Nobody receives from the channel any more; publishing ends.
    ReceiverGone,
    /// The channel was full and its waiting item was taken out: the item is
    /// handed back to be sent again.
    Retry(T),
}

/// What publishing does after a send attempt.
#[derive(Debug, PartialEq, Eq)]
pub enum SendDecision<T> {
    /// Publishing is over with this outcome.
    Done(PublishOutcome<T>),
    /// The channel is full: drop the item waiting in it, then decide with
    /// `after_drain` what happens to this item.
    Drain(T),
}

/// The decision after a send attempt: a queued item is delivered, a channel
/// without receivers ends publishing, and a full channel is drained first.
pub fn after_send<T>(sent: SendAttempt<T>) -> (d: SendDecision<T>)
    ensures
        d == match sent {
            SendAttempt::Sent => SendDecision::Done(PublishOutcome::Delivered),
            SendAttempt::Disconnected(_) => SendDecision::Done(PublishOutcome::ReceiverGone),
            SendAttempt::Full(back) => SendDecision::Drain(back),
        },
{
    match sent {
        SendAttempt::Sent => SendDecision::Done(PublishOutcome::Delivered),
        SendAttempt::Disconnected(_) => SendDecision::Done(PublishOutcome::ReceiverGone),
        SendAttempt::Full(back) => SendDecision::Drain(back),
    }
}

/// The decision after draining a full channel, given what the attempt to
/// take its waiting item gave: the item `back` is sent again unless the
/// channel has no sender left, which ends publishing.
pub fn after_drain<T, U>(back: T, drained: &ReceiveAttempt<U>) -> (r: PublishOutcome<T>)
    ensures
        r == if drained is Disconnected {
            PublishOutcome::ReceiverGone
        } else {
            PublishOutcome::Retry(back)
        },
{
    match drained {
        ReceiveAttempt::Disconnected => PublishOutcome::ReceiverGone,
        _ => PublishOutcome::Retry(back),
    }
}

/// Holds a bounded channel's sender together with a receiver of the same
/// channel, so that a full channel can be drained before the new item goes in.
#[verifier::reject_recursive_types(T)]
pub struct LatestSender<T> {
    pub sender: Sender<T>,
    pub overflow_receiver: Receiver<T>,
}

impl<T> LatestSender<T> {
    pub fn new(sender: Sender<T>, overflow_receiver: Receiver<T>) -> (s: Self)
        ensures
            s.sender == sender,
            s.overflow_receiver == overflow_receiver,
    {
        LatestSender { sender, overflow_receiver }
    }

    /// One attempt to publish `item`: it is sent, and the outcome is what
    /// `after_send` decides for the send attempt, or, for a full channel, what
    /// `after_drain` decides once the waiting item was taken out. Whether the
    /// channel is full or has lost its other end depends on the threads that
    /// use it, so any of the three outcomes can come; an item handed back is
    /// the item given.
    pub fn publish_attempt(&self, item: T) -> (r: PublishOutcome<T>)
        ensures
            r matches PublishOutcome::Retry(back) ==> back == item,
    {
        match after_send(channel_try_send(&self.sender, item)) {
            SendDecision::Done(outcome) => outcome,
            SendDecision::Drain(back) => {
                let drained = channel_try_recv(&self.overflow_receiver);
                after_drain(back, &drained)
            },
        }
    }
}

} // verus!
