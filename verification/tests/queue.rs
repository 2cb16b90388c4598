use chat_session::messages::ChatMessage;
use chat_session::queue::{EnqueueOutcome, OutboundQueue};

fn msg(user_id: &str, message: &str) -> ChatMessage {
    ChatMessage { user_id: user_id.to_string(), message: message.to_string() }
}

#[test]
fn accepts_until_capacity_then_blocks() {
    let mut q = OutboundQueue::new(2);
    assert_eq!(q.capacity(), 2);
    assert_eq!(q.try_enqueue(msg("user_123", "one")), EnqueueOutcome::Accepted);
    assert_eq!(q.try_enqueue(msg("user_123", "two")), EnqueueOutcome::Accepted);
    assert_eq!(q.len(), 2);
    // The queue is full: the producer must wait; nothing is dropped.
    assert_eq!(q.try_enqueue(msg("user_123", "three")), EnqueueOutcome::WouldBlock);
    assert_eq!(q.len(), 2);
}

#[test]
fn drains_in_first_in_first_out_order() {
    let mut q = OutboundQueue::new(3);
    q.try_enqueue(msg("user_123", "one"));
    q.try_enqueue(msg("user_123", "two"));
    q.try_enqueue(msg("user_123", "three"));
    assert_eq!(q.dequeue().unwrap().message, "one");
    assert_eq!(q.dequeue().unwrap().message, "two");
    assert_eq!(q.dequeue().unwrap().message, "three");
    assert!(q.dequeue().is_none());
}

#[test]
fn room_freed_by_draining_is_usable_again() {
    let mut q = OutboundQueue::new(1);
    assert_eq!(q.try_enqueue(msg("user_123", "one")), EnqueueOutcome::Accepted);
    assert_eq!(q.try_enqueue(msg("user_123", "two")), EnqueueOutcome::WouldBlock);
    assert_eq!(q.dequeue().unwrap().message, "one");
    assert_eq!(q.try_enqueue(msg("user_123", "two")), EnqueueOutcome::Accepted);
    assert_eq!(q.dequeue().unwrap().message, "two");
}

#[test]
fn closed_queue_refuses_messages_but_keeps_pending_ones() {
    let mut q = OutboundQueue::new(4);
    q.try_enqueue(msg("user_123", "one"));
    q.close();
    assert!(q.closed());
    assert_eq!(q.try_enqueue(msg("user_123", "two")), EnqueueOutcome::Closed);
    assert_eq!(q.len(), 1);
    assert_eq!(q.dequeue().unwrap().message, "one");
}
