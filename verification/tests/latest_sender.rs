use rabbit_infra::latest_sender::{
    after_drain, after_send, LatestSender, PublishOutcome, ReceiveAttempt, SendAttempt, SendDecision,
};

#[test]
fn full_channel_drops_the_waiting_item_and_retries() {
    let (sender, receiver) = flume::bounded(1);
    let latest = LatestSender::new(sender, receiver.clone());
    assert_eq!(latest.publish_attempt(1), PublishOutcome::Delivered);
    assert_eq!(latest.publish_attempt(2), PublishOutcome::Retry(2));
    assert!(receiver.is_empty());
    assert_eq!(latest.publish_attempt(2), PublishOutcome::Delivered);
    assert_eq!(receiver.try_recv(), Ok(2));
}

#[test]
fn publishing_ends_when_the_receivers_are_gone() {
    let (sender, receiver) = flume::bounded::<u32>(1);
    let (_other_sender, other_receiver) = flume::bounded::<u32>(1);
    drop(receiver);
    let latest = LatestSender::new(sender, other_receiver);
    assert_eq!(latest.publish_attempt(1), PublishOutcome::ReceiverGone);
}

#[test]
fn draining_a_channel_without_senders_ends_publishing() {
    let (sender, receiver) = flume::bounded::<u32>(1);
    let (other_sender, other_receiver) = flume::bounded::<u32>(1);
    sender.try_send(1).unwrap();
    drop(other_sender);
    let latest = LatestSender::new(sender, other_receiver);
    assert_eq!(latest.publish_attempt(2), PublishOutcome::ReceiverGone);
    assert_eq!(receiver.try_recv(), Ok(1));
}

#[test]
fn send_and_drain_decisions() {
    assert_eq!(after_send(SendAttempt::<u32>::Sent), SendDecision::Done(PublishOutcome::Delivered));
    assert_eq!(after_send(SendAttempt::Disconnected(3)), SendDecision::Done(PublishOutcome::ReceiverGone));
    assert_eq!(after_send(SendAttempt::Full(3)), SendDecision::Drain(3));
    assert_eq!(after_drain(4, &ReceiveAttempt::Received(1)), PublishOutcome::Retry(4));
    assert_eq!(after_drain(4, &ReceiveAttempt::<u32>::Empty), PublishOutcome::Retry(4));
    assert_eq!(after_drain(4, &ReceiveAttempt::<u32>::Disconnected), PublishOutcome::ReceiverGone);
}
