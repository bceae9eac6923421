//! Tests for the bounded pooled queue: FIFO order, capacity refusal, and
//! the enqueue/dequeue counters.

use actor_runtime::pooled_queue::{create, PooledQueueError};

// Items that will be put in the list
#[derive(Debug, Eq, PartialEq)]
enum Items {
    A,
    B,
    C,
    D,
    E,
    F,
}

/// Tests the basics of the queue.
#[test]
fn test_queue_dequeue() {
    let mut queue = create::<Items>(5);

    assert_eq!(5, queue.capacity());

    // Check the initial structure.
    assert_eq!(0, queue.length());
    assert_eq!(0, queue.enqueued());
    assert_eq!(0, queue.dequeued());

    // Check that enqueueing appends at the back and changes nothing else.
    assert_eq!(Ok(1), queue.push(Items::A));
    assert_eq!(1, queue.length());
    assert_eq!(1, queue.enqueued());
    assert_eq!(0, queue.dequeued());

    assert_eq!(Ok(2), queue.push(Items::B));
    assert_eq!(2, queue.length());
    assert_eq!(2, queue.enqueued());
    assert_eq!(0, queue.dequeued());

    assert_eq!(Ok(3), queue.push(Items::C));
    assert_eq!(3, queue.length());
    assert_eq!(3, queue.enqueued());
    assert_eq!(0, queue.dequeued());

    assert_eq!(Ok(4), queue.push(Items::D));
    assert_eq!(4, queue.length());
    assert_eq!(4, queue.enqueued());
    assert_eq!(0, queue.dequeued());

    assert_eq!(Ok(5), queue.push(Items::E));
    assert_eq!(5, queue.length());
    assert_eq!(5, queue.enqueued());
    assert_eq!(0, queue.dequeued());

    assert_eq!(Err(PooledQueueError::QueueFull), queue.push(Items::F));
    assert_eq!(5, queue.length());
    assert_eq!(5, queue.enqueued());
    assert_eq!(0, queue.dequeued());

    assert_eq!(Ok(Items::A), queue.pop());
    assert_eq!(4, queue.length());
    assert_eq!(5, queue.enqueued());
    assert_eq!(1, queue.dequeued());

    assert_eq!(Ok(Items::B), queue.pop());
    assert_eq!(3, queue.length());
    assert_eq!(5, queue.enqueued());
    assert_eq!(2, queue.dequeued());

    assert_eq!(Ok(Items::C), queue.pop());
    assert_eq!(2, queue.length());
    assert_eq!(5, queue.enqueued());
    assert_eq!(3, queue.dequeued());

    assert_eq!(Ok(Items::D), queue.pop());
    assert_eq!(1, queue.length());
    assert_eq!(5, queue.enqueued());
    assert_eq!(4, queue.dequeued());

    assert_eq!(Ok(Items::E), queue.pop());
    assert_eq!(0, queue.length());
    assert_eq!(5, queue.enqueued());
    assert_eq!(5, queue.dequeued());

    assert_eq!(Err(PooledQueueError::QueueEmpty), queue.pop());
    assert_eq!(0, queue.length());
    assert_eq!(5, queue.enqueued());
    assert_eq!(5, queue.dequeued());

    assert_eq!(Ok(1), queue.push(Items::F));
    assert_eq!(1, queue.length());
    assert_eq!(6, queue.enqueued());
    assert_eq!(5, queue.dequeued());

    assert_eq!(Ok(Items::F), queue.pop());
    assert_eq!(0, queue.length());
    assert_eq!(6, queue.enqueued());
    assert_eq!(6, queue.dequeued());
}
