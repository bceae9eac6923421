//! Tests for the skip-enabled mailbox: FIFO delivery, skip/reset
//! semantics, bounded capacity, and counter consistency.

use actor_runtime::mailbox::{Mailbox, MailboxError};

/// Messages pushed by one producer come back out in push order.
#[test]
fn fifo_delivery_order() {
    let mut mailbox: Mailbox<i32> = Mailbox::new(8);
    assert_eq!(Ok(1), mailbox.push(10));
    assert_eq!(Ok(2), mailbox.push(20));
    assert_eq!(Ok(3), mailbox.push(30));
    assert_eq!(Ok(&10), mailbox.peek());
    assert_eq!(Ok(10), mailbox.pop());
    assert_eq!(Ok(20), mailbox.pop());
    assert_eq!(Ok(30), mailbox.pop());
    assert_eq!(Err(MailboxError::Empty), mailbox.pop());
}

/// Skipping hides messages without discarding them; a reset makes the
/// earliest skipped message the next delivery and keeps the original order.
#[test]
fn skip_hides_and_reset_restores() {
    let mut mailbox: Mailbox<char> = Mailbox::new(4);
    mailbox.push('a').unwrap();
    mailbox.push('b').unwrap();
    mailbox.push('c').unwrap();

    assert_eq!(Ok(&'a'), mailbox.peek());
    assert_eq!(Ok(()), mailbox.skip());
    assert_eq!(3, mailbox.pending());
    assert_eq!(2, mailbox.receivable());
    assert_eq!(Ok(&'b'), mailbox.peek());
    assert_eq!(Ok(()), mailbox.skip());
    assert_eq!(Ok(&'c'), mailbox.peek());
    assert_eq!(Ok(()), mailbox.skip());
    assert_eq!(0, mailbox.receivable());
    assert_eq!(Err(MailboxError::Empty), mailbox.peek());
    assert_eq!(Err(MailboxError::Empty), mailbox.pop());
    assert_eq!(Err(MailboxError::Empty), mailbox.skip());

    assert_eq!(Ok(()), mailbox.reset_skip());
    assert_eq!(3, mailbox.receivable());
    assert_eq!(Ok(&'a'), mailbox.peek());
    assert_eq!(Ok('a'), mailbox.pop());
    assert_eq!(Ok('b'), mailbox.pop());
    assert_eq!(Ok('c'), mailbox.pop());
}

/// A reset with no skip cursor set is a no-op success.
#[test]
fn reset_without_cursor_is_noop() {
    let mut mailbox: Mailbox<u8> = Mailbox::new(2);
    mailbox.push(1).unwrap();
    assert_eq!(Ok(()), mailbox.reset_skip());
    assert_eq!(1, mailbox.pending());
    assert_eq!(Ok(1), mailbox.pop());
}

/// A capacity-2 mailbox accepts two pushes and refuses the third until the
/// consumer drains; all four messages arrive, in the order of the
/// successful pushes.
#[test]
fn bounded_capacity_backpressure() {
    let mut mailbox: Mailbox<u32> = Mailbox::new(2);
    assert_eq!(2, mailbox.capacity());
    assert_eq!(Ok(1), mailbox.push(1));
    assert_eq!(Ok(2), mailbox.push(2));
    assert_eq!(Err(MailboxError::Full), mailbox.push(3));
    assert_eq!(Err(MailboxError::Full), mailbox.push(4));

    let mut delivered = Vec::new();
    delivered.push(mailbox.pop().unwrap());
    assert_eq!(Ok(2), mailbox.push(3));
    assert_eq!(Err(MailboxError::Full), mailbox.push(4));
    delivered.push(mailbox.pop().unwrap());
    assert_eq!(Ok(2), mailbox.push(4));
    delivered.push(mailbox.pop().unwrap());
    delivered.push(mailbox.pop().unwrap());

    assert_eq!(vec![1, 2, 3, 4], delivered);
    assert_eq!(4, mailbox.sent());
    assert_eq!(4, mailbox.received());
    assert_eq!(0, mailbox.pending());
}

/// `sent` always equals `received` plus `pending`, and the deliverable
/// count never exceeds `pending`.
#[test]
fn counter_consistency() {
    let mut mailbox: Mailbox<u16> = Mailbox::new(8);
    for k in 0..5u16 {
        mailbox.push(k).unwrap();
        assert_eq!(mailbox.sent(), mailbox.received() + mailbox.pending());
    }
    mailbox.skip().unwrap();
    mailbox.skip().unwrap();
    assert_eq!(5, mailbox.pending());
    assert_eq!(3, mailbox.receivable());
    assert!(mailbox.receivable() <= mailbox.pending());
    mailbox.pop().unwrap();
    assert_eq!(5, mailbox.sent());
    assert_eq!(1, mailbox.received());
    assert_eq!(4, mailbox.pending());
    assert_eq!(mailbox.sent(), mailbox.received() + mailbox.pending());
}

/// Every operation that can fail reports the right error on a fresh,
/// empty mailbox.
#[test]
fn empty_mailbox_errors() {
    let mut mailbox: Mailbox<String> = Mailbox::new(1);
    assert_eq!(Err(MailboxError::Empty), mailbox.peek());
    assert_eq!(Err(MailboxError::Empty), mailbox.pop());
    assert_eq!(Err(MailboxError::Empty), mailbox.skip());
    assert_eq!(Ok(()), mailbox.reset_skip());
    assert_eq!(0, mailbox.sent());
    assert_eq!(0, mailbox.received());
    assert_eq!(0, mailbox.pending());
    assert_eq!(0, mailbox.receivable());
}
