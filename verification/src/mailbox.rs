//! The per-actor mailbox: a bounded FIFO with a movable skip cursor.
//!
//! Messages are appended at the tail and delivered from the head, except
//! that the consumer may *skip* the current head: the skip cursor then
//! advances past it, hiding it (and everything before it) from delivery
//! without discarding it. A *reset* rewinds the cursor to the true head, so
//! skipped messages are reconsidered in their original arrival order.
//!
//! The model tracks the pending messages in arrival order, the cursor, and
//! the monotonic `sent`/`received` counters; `pending` is the number of
//! queued messages and `receivable` (the deliverable count) is `pending`
//! minus the messages hidden behind the cursor.

use std::collections::VecDeque;
use vstd::prelude::*;

verus! {

/// Error values returned by mailbox operations: `Full` when a push finds the
/// mailbox at capacity, `Empty` when there is no deliverable message.
#[derive(Clone, Copy, Debug, PartialEq, Eq, Structural)]
pub enum MailboxError {
    Full,
    Empty,
}

/// Mathematical model of a mailbox.
#[verifier::ext_equal]
pub ghost struct MailboxModel<M> {
    /// Pending messages, oldest first.
    pub contents: Seq<M>,
    /// Number of messages at the front hidden by the skip cursor.
    pub cursor: nat,
    /// Total number of messages ever accepted.
    pub sent: nat,
    /// Total number of messages ever removed by `pop`.
    pub received: nat,
    /// Fixed capacity.
    pub capacity: nat,
}

impl<M> MailboxModel<M> {
    /// Internal consistency of the mailbox.
    pub open spec fn inv(self) -> bool {
        &&& 1 <= self.capacity <= usize::MAX
        &&& self.cursor <= self.contents.len()
        &&& self.contents.len() <= self.capacity
        &&& self.sent == self.received + self.contents.len()
    }

    /// Number of messages currently queued.
    pub open spec fn pending(self) -> nat {
        self.contents.len()
    }

    /// Number of messages visible to the consumer: those past the cursor.
    pub open spec fn receivable(self) -> nat {
        (self.contents.len() - self.cursor) as nat
    }

    /// Whether a push can be accepted.
    pub open spec fn can_push(self) -> bool {
        self.contents.len() < self.capacity
    }

    /// The message that `peek` and `pop` deliver: the oldest one past the
    /// cursor.
    pub open spec fn head(self) -> M
        recommends
            self.receivable() > 0,
    {
        self.contents[self.cursor as int]
    }

    /// State after a successful push of `m`.
    pub open spec fn push_tr(self, m: M) -> MailboxModel<M> {
        MailboxModel {
            contents: self.contents.push(m),
            cursor: self.cursor,
            sent: self.sent + 1,
            received: self.received,
            capacity: self.capacity,
        }
    }

    /// State after a successful pop: the delivered message leaves the queue
    /// and `received` rises.
    pub open spec fn pop_tr(self) -> MailboxModel<M> {
        MailboxModel {
            contents: self.contents.remove(self.cursor as int),
            cursor: self.cursor,
            sent: self.sent,
            received: self.received + 1,
            capacity: self.capacity,
        }
    }

    /// State after a successful skip: the cursor slides past the current
    /// head; nothing is discarded.
    pub open spec fn skip_tr(self) -> MailboxModel<M> {
        MailboxModel {
            contents: self.contents,
            cursor: self.cursor + 1,
            sent: self.sent,
            received: self.received,
            capacity: self.capacity,
        }
    }

    /// State after a reset: the cursor rewinds to the true head.
    pub open spec fn reset_tr(self) -> MailboxModel<M> {
        MailboxModel {
            contents: self.contents,
            cursor: 0,
            sent: self.sent,
            received: self.received,
            capacity: self.capacity,
        }
    }
}

/// A bounded FIFO mailbox with skip/reset semantics. The messages live in
/// a pre-sized ring buffer: a push, and a pop with no cursor set, are
/// constant-time, and accepting a message allocates nothing. `skip` and
/// `reset_skip` only move the cursor; no message is moved. A pop behind a
/// set cursor costs at most the length of the deferred prefix.
pub struct Mailbox<M> {
    queue: VecDeque<M>,
    cursor: usize,
    sent: usize,
    received: usize,
    capacity: usize,
}

impl<M> View for Mailbox<M> {
    type V = MailboxModel<M>;

    closed spec fn view(&self) -> MailboxModel<M> {
        MailboxModel {
            contents: self.queue@,
            cursor: self.cursor as nat,
            sent: self.sent as nat,
            received: self.received as nat,
            capacity: self.capacity as nat,
        }
    }
}

impl<M> Mailbox<M> {
    /// Well-formedness of the mailbox as a value.
    pub open spec fn wf(self) -> bool {
        self@.inv()
    }

    /// Creates an empty mailbox with the given capacity, which must be at
    /// least 1.
    pub fn new(capacity: usize) -> (m: Mailbox<M>)
        requires
            capacity >= 1,
        ensures
            m.wf(),
            m@.contents == Seq::<M>::empty(),
            m@.cursor == 0,
            m@.sent == 0,
            m@.received == 0,
            m@.capacity == capacity,
    {
        Mailbox { queue: VecDeque::with_capacity(capacity), cursor: 0, sent: 0, received: 0, capacity }
    }

    /// Total number of messages ever accepted into the mailbox.
    pub fn sent(&self) -> (r: usize)
        ensures
            r == self@.sent,
    {
        self.sent
    }

    /// Total number of messages ever removed by `pop`.
    pub fn received(&self) -> (r: usize)
        ensures
            r == self@.received,
    {
        self.received
    }

    /// Number of messages currently queued.
    pub fn pending(&self) -> (r: usize)
        ensures
            r == self@.pending(),
    {
        self.queue.len()
    }

    /// Number of messages currently visible to the consumer.
    pub fn receivable(&self) -> (r: usize)
        requires
            self.wf(),
        ensures
            r == self@.receivable(),
    {
        self.queue.len() - self.cursor
    }

    /// The capacity the mailbox was created with.
    pub fn capacity(&self) -> (r: usize)
        ensures
            r == self@.capacity,
    {
        self.capacity
    }

    /// Appends `message` at the tail. Fails with `Full`, and changes
    /// nothing, exactly when `pending` equals the capacity; on success
    /// returns the new `receivable` count.
    pub fn push(&mut self, message: M) -> (r: Result<usize, MailboxError>)
        requires
            old(self).wf(),
            old(self)@.sent < usize::MAX,
        ensures
            final(self).wf(),
            !old(self)@.can_push() ==> {
                &&& r == Err::<usize, MailboxError>(MailboxError::Full)
                &&& final(self)@ == old(self)@
            },
            old(self)@.can_push() ==> {
                &&& final(self)@ == old(self)@.push_tr(message)
                &&& r == Ok::<usize, MailboxError>(final(self)@.receivable() as usize)
            },
    {
        if self.queue.len() == self.capacity {
            return Err(MailboxError::Full);
        }
        self.queue.push_back(message);
        self.sent = self.sent + 1;
        Ok(self.queue.len() - self.cursor)
    }

    /// Returns a reference to the message `pop` would deliver, without
    /// changing any state. Fails with `Empty` exactly when `receivable` is 0.
    pub fn peek(&self) -> (r: Result<&M, MailboxError>)
        requires
            self.wf(),
        ensures
            self@.receivable() == 0 ==> r == Err::<&M, MailboxError>(MailboxError::Empty),
            self@.receivable() > 0 ==> (r matches Ok(m) && *m == self@.head()),
    {
        if self.cursor < self.queue.len() {
            Ok(&self.queue[self.cursor])
        } else {
            Err(MailboxError::Empty)
        }
    }

    /// Removes and returns the message `peek` would return, raising
    /// `received`. Fails with `Empty`, and changes nothing, exactly when
    /// `receivable` is 0.
    pub fn pop(&mut self) -> (r: Result<M, MailboxError>)
        requires
            old(self).wf(),
        ensures
            final(self).wf(),
            old(self)@.receivable() == 0 ==> {
                &&& r == Err::<M, MailboxError>(MailboxError::Empty)
                &&& final(self)@ == old(self)@
            },
            old(self)@.receivable() > 0 ==> {
                &&& r matches Ok(m) && m == old(self)@.head()
                &&& final(self)@ == old(self)@.pop_tr()
            },
    {
        if self.cursor >= self.queue.len() {
            return Err(MailboxError::Empty);
        }
        let message = self.queue.remove(self.cursor).unwrap();
        self.received = self.received + 1;
        Ok(message)
    }

    /// Advances the skip cursor past the message `peek` would return, hiding
    /// it and everything before it from delivery until a reset. Fails with
    /// `Empty`, and changes nothing, exactly when `receivable` is 0.
    pub fn skip(&mut self) -> (r: Result<(), MailboxError>)
        requires
            old(self).wf(),
        ensures
            final(self).wf(),
            old(self)@.receivable() == 0 ==> {
                &&& r == Err::<(), MailboxError>(MailboxError::Empty)
                &&& final(self)@ == old(self)@
            },
            old(self)@.receivable() > 0 ==> {
                &&& r == Ok::<(), MailboxError>(())
                &&& final(self)@ == old(self)@.skip_tr()
            },
    {
        if self.cursor >= self.queue.len() {
            return Err(MailboxError::Empty);
        }
        self.cursor = self.cursor + 1;
        Ok(())
    }

    /// Clears the skip cursor, restoring visibility of every queued message
    /// from the true head. Always succeeds; with no cursor set it is a
    /// no-op.
    pub fn reset_skip(&mut self) -> (r: Result<(), MailboxError>)
        requires
            old(self).wf(),
        ensures
            final(self).wf(),
            r == Ok::<(), MailboxError>(()),
            final(self)@ == old(self)@.reset_tr(),
    {
        self.cursor = 0;
        Ok(())
    }
}

/// The sequence of messages that `n` successive pops deliver from `v`.
pub open spec fn deliveries<M>(v: MailboxModel<M>, n: nat) -> Seq<M>
    decreases n,
{
    if n == 0 {
        Seq::empty()
    } else {
        seq![v.head()] + deliveries(v.pop_tr(), (n - 1) as nat)
    }
}

/// The mailbox state after pushing each message of `msgs`, in order.
pub open spec fn push_all<M>(v: MailboxModel<M>, msgs: Seq<M>) -> MailboxModel<M>
    decreases msgs.len(),
{
    if msgs.len() == 0 {
        v
    } else {
        push_all(v.push_tr(msgs[0]), msgs.drop_first())
    }
}

/// The mailbox state after `k` successive skips.
pub open spec fn skip_all<M>(v: MailboxModel<M>, k: nat) -> MailboxModel<M>
    decreases k,
{
    if k == 0 {
        v
    } else {
        skip_all(v.skip_tr(), (k - 1) as nat)
    }
}

proof fn lemma_push_all_shape<M>(v: MailboxModel<M>, msgs: Seq<M>)
    ensures
        push_all(v, msgs).contents == v.contents + msgs,
        push_all(v, msgs).cursor == v.cursor,
        push_all(v, msgs).capacity == v.capacity,
        push_all(v, msgs).received == v.received,
        push_all(v, msgs).sent == v.sent + msgs.len(),
    decreases msgs.len(),
{
    if msgs.len() == 0 {
        assert(v.contents + msgs =~= v.contents);
    } else {
        lemma_push_all_shape(v.push_tr(msgs[0]), msgs.drop_first());
        assert(v.contents.push(msgs[0]) + msgs.drop_first() =~= v.contents + msgs);
    }
}

proof fn lemma_deliveries_whole_queue<M>(v: MailboxModel<M>)
    requires
        v.inv(),
        v.cursor == 0,
    ensures
        deliveries(v, v.contents.len()) == v.contents,
    decreases v.contents.len(),
{
    if v.contents.len() == 0 {
        assert(deliveries(v, 0) =~= v.contents);
    } else {
        let w = v.pop_tr();
        assert(w.contents =~= v.contents.drop_first());
        lemma_deliveries_whole_queue(w);
        assert(seq![v.head()] + w.contents =~= v.contents);
    }
}

proof fn lemma_skip_all_shape<M>(v: MailboxModel<M>, k: nat)
    ensures
        skip_all(v, k).contents == v.contents,
        skip_all(v, k).cursor == v.cursor + k,
        skip_all(v, k).sent == v.sent,
        skip_all(v, k).received == v.received,
        skip_all(v, k).capacity == v.capacity,
    decreases k,
{
    if k > 0 {
        lemma_skip_all_shape(v.skip_tr(), (k - 1) as nat);
    }
}

/// FIFO per producer: starting from a mailbox with no skip cursor, pushing
/// the messages `msgs` in order and then popping everything delivers first
/// the messages already queued and then `msgs`, in exactly the order the
/// successful pushes happened.
pub proof fn lemma_fifo_delivery<M>(v: MailboxModel<M>, msgs: Seq<M>)
    requires
        v.inv(),
        v.cursor == 0,
        v.contents.len() + msgs.len() <= v.capacity,
    ensures
        push_all(v, msgs).inv(),
        deliveries(push_all(v, msgs), (v.contents.len() + msgs.len()) as nat) == v.contents
            + msgs,
{
    let w = push_all(v, msgs);
    lemma_push_all_shape(v, msgs);
    lemma_deliveries_whole_queue(w);
}

/// Skip preserves order: if the consumer, starting at the true head, skips
/// the first `k` messages (hiding but not discarding them) and then resets
/// the cursor, the next delivery is the first message that was skipped, and
/// popping everything delivers the whole queue in original arrival order.
pub proof fn lemma_skip_then_reset_delivery<M>(v: MailboxModel<M>, k: nat)
    requires
        v.inv(),
        v.cursor == 0,
        0 < k <= v.contents.len(),
    ensures
        skip_all(v, k).contents == v.contents,
        skip_all(v, k).receivable() == v.contents.len() - k,
        skip_all(v, k).reset_tr().head() == v.contents[0],
        deliveries(skip_all(v, k).reset_tr(), v.contents.len()) == v.contents,
{
    lemma_skip_all_shape(v, k);
    let w = skip_all(v, k).reset_tr();
    lemma_deliveries_whole_queue(w);
}

/// Bounded capacity: a well-formed mailbox never holds more than `capacity`
/// pending messages, and a push is accepted exactly while `pending` is
/// below the capacity.
pub proof fn lemma_bounded_capacity<M>(v: MailboxModel<M>)
    requires
        v.inv(),
    ensures
        v.pending() <= v.capacity,
        v.can_push() <==> v.pending() < v.capacity,
{
}

/// Counter consistency: in every well-formed mailbox `sent` equals
/// `received` plus `pending`, and `receivable` never exceeds `pending`.
pub proof fn lemma_counter_consistency<M>(v: MailboxModel<M>)
    requires
        v.inv(),
    ensures
        v.sent == v.received + v.pending(),
        v.receivable() <= v.pending(),
{
}

} // verus!
