//! Actors and the actor system.
//!
//! An actor binds a mailbox to a stateful message processor. The system
//! keeps a registry of actors, a bounded run queue of ready actor
//! identities, and dispatches one processor turn per dequeued identity,
//! re-enqueueing an actor that still has deliverable messages. An actor
//! identity enters the run queue only on the edge where its deliverable
//! count rises from 0 to 1, so it stands in the queue at most once.

use crate::mailbox::Mailbox;
use crate::mailbox::MailboxError;
use crate::mailbox::MailboxModel;
use crate::pooled_queue::PooledQueue;
use crate::pooled_queue::PooledQueueModel;
use vstd::prelude::*;

verus! {

/// Status of a message after the actor's processor has seen it.
#[derive(Clone, Copy, Debug, PartialEq, Eq, Structural)]
pub enum Status {
    /// The message was dealt with and is removed from the mailbox.
    Processed,
    /// The message stays in the mailbox, hidden behind the skip cursor,
    /// to be reconsidered once the processor returns `ResetSkip`.
    Skipped,
    /// Clears the skip cursor, restoring visibility of all skipped
    /// messages. The triggering message is not removed; it will be seen
    /// again after the earlier skipped messages.
    ResetSkip,
}

/// The sender half of an actor identity.
#[derive(Clone, Copy, Debug)]
pub enum ActorSender {
    /// The actor lives in the local actor system, which resolves the
    /// identity to its mailbox on send.
    Local,
    /// Reserved for actors hosted by a remote runtime; not implemented.
    Remote,
}

/// Identity of an actor: a local id unique within its node, and the node id
/// of the hosting runtime instance. Equality depends solely on those two.
#[derive(Clone, Copy, Debug)]
pub struct ActorId {
    /// The unique id for this actor on this node.
    pub id: usize,
    /// The id for the node that this actor is on.
    pub node_id: u128,
    /// How messages reach the actor's mailbox.
    pub sender: ActorSender,
}

impl PartialEq for ActorId {
    fn eq(&self, other: &ActorId) -> (r: bool) {
        self.id == other.id && self.node_id == other.node_id
    }
}

impl vstd::std_specs::cmp::PartialEqSpecImpl for ActorId {
    open spec fn obeys_eq_spec() -> bool {
        true
    }

    open spec fn eq_spec(&self, other: &ActorId) -> bool {
        self.id == other.id && self.node_id == other.node_id
    }
}

impl Eq for ActorId {}

/// A user-supplied message processor: invoked with the actor's private
/// state, the actor's own identity and one message, it returns the status
/// that drives the mailbox (process, skip, or reset the skip cursor).
pub trait Processor<S, M> {
    /// Handles one message on behalf of the actor owning `state`.
    fn process(&mut self, state: &mut S, aid: &ActorId, message: &M) -> Status;
}

/// How one turn may change a mailbox: exactly one of pop, skip or reset,
/// as decided by the processor's returned status.
pub open spec fn turn_tr<M>(pre: MailboxModel<M>, post: MailboxModel<M>) -> bool {
    ||| post == pre.pop_tr()
    ||| post == pre.skip_tr()
    ||| post == pre.reset_tr()
}

/// Mathematical model of an actor.
#[verifier::ext_equal]
pub ghost struct ActorModel<S, M, P> {
    pub aid: ActorId,
    pub state: S,
    pub mailbox: MailboxModel<M>,
    pub processor: P,
}

/// An actor: an identity, private state, the mailbox holding its messages,
/// and the processor that handles them one turn at a time.
pub struct Actor<S, M, P> {
    aid: ActorId,
    state: S,
    mailbox: Mailbox<M>,
    processor: P,
}

impl<S, M, P> View for Actor<S, M, P> {
    type V = ActorModel<S, M, P>;

    closed spec fn view(&self) -> ActorModel<S, M, P> {
        ActorModel {
            aid: self.aid,
            state: self.state,
            mailbox: self.mailbox@,
            processor: self.processor,
        }
    }
}

impl<S, M, P: Processor<S, M>> Actor<S, M, P> {
    /// Well-formedness of the actor as a value.
    pub open spec fn wf(self) -> bool {
        self@.mailbox.inv()
    }

    /// Creates a new actor with the given identity parts, mailbox capacity
    /// (at least 1), initial state and processor.
    pub fn new(node_id: u128, id: usize, capacity: usize, state: S, processor: P) -> (a: Actor<
        S,
        M,
        P,
    >)
        requires
            capacity >= 1,
        ensures
            a.wf(),
            a@.aid == (ActorId { id, node_id, sender: ActorSender::Local }),
            a@.state == state,
            a@.processor == processor,
            a@.mailbox.contents == Seq::<M>::empty(),
            a@.mailbox.cursor == 0,
            a@.mailbox.sent == 0,
            a@.mailbox.received == 0,
            a@.mailbox.capacity == capacity,
    {
        Actor {
            aid: ActorId { id, node_id, sender: ActorSender::Local },
            state,
            mailbox: Mailbox::new(capacity),
            processor,
        }
    }

    /// The actor's identity.
    pub fn aid(&self) -> (r: ActorId)
        ensures
            r == self@.aid,
    {
        self.aid
    }

    /// Total number of messages that have been sent to this actor.
    pub fn sent(&self) -> (r: usize)
        ensures
            r == self@.mailbox.sent,
    {
        self.mailbox.sent()
    }

    /// Total number of messages this actor has received (processed off the
    /// mailbox).
    pub fn received(&self) -> (r: usize)
        ensures
            r == self@.mailbox.received,
    {
        self.mailbox.received()
    }

    /// Number of messages currently pending in the actor's mailbox.
    pub fn pending(&self) -> (r: usize)
        ensures
            r == self@.mailbox.pending(),
    {
        self.mailbox.pending()
    }

    /// Number of messages currently deliverable to the actor, i.e. pending
    /// and not hidden behind the skip cursor.
    pub fn receivable(&self) -> (r: usize)
        requires
            self.wf(),
        ensures
            r == self@.mailbox.receivable(),
    {
        self.mailbox.receivable()
    }

    /// A view of the actor's private state, for observation after the
    /// system has gone quiescent.
    pub fn state(&self) -> (r: &S)
        ensures
            r == self@.state,
    {
        &self.state
    }

    /// Appends one message to the actor's mailbox: the producer side of a
    /// send. On success returns the new deliverable count.
    fn deliver(&mut self, message: M) -> (r: Result<usize, MailboxError>)
        requires
            old(self).wf(),
            old(self)@.mailbox.sent < usize::MAX,
        ensures
            final(self).wf(),
            final(self)@.aid == old(self)@.aid,
            final(self)@.state == old(self)@.state,
            final(self)@.processor == old(self)@.processor,
            !old(self)@.mailbox.can_push() ==> {
                &&& r == Err::<usize, MailboxError>(MailboxError::Full)
                &&& final(self)@ == old(self)@
            },
            old(self)@.mailbox.can_push() ==> {
                &&& final(self)@.mailbox == old(self)@.mailbox.push_tr(message)
                &&& r == Ok::<usize, MailboxError>(final(self)@.mailbox.receivable() as usize)
            },
    {
        self.mailbox.push(message)
    }

    /// Executes one turn and returns the status the processor decided,
    /// `None` when no message was deliverable (a spurious schedule, which
    /// changes nothing). Otherwise the processor is invoked on the message
    /// `peek` delivers, and the returned status drives the mailbox:
    /// `Processed` pops that message, `Skipped` hides it behind the skip
    /// cursor, `ResetSkip` clears the cursor and leaves it queued.
    pub fn receive(&mut self) -> (r: Option<Status>)
        requires
            old(self).wf(),
        ensures
            final(self).wf(),
            final(self)@.aid == old(self)@.aid,
            final(self)@.mailbox.sent == old(self)@.mailbox.sent,
            final(self)@.mailbox.capacity == old(self)@.mailbox.capacity,
            r is None <==> old(self)@.mailbox.receivable() == 0,
            r is None ==> final(self)@ == old(self)@,
            r == Some(Status::Processed) ==> final(self)@.mailbox == old(self)@.mailbox.pop_tr(),
            r == Some(Status::Skipped) ==> final(self)@.mailbox == old(self)@.mailbox.skip_tr(),
            r == Some(Status::ResetSkip) ==> final(self)@.mailbox == old(
                self,
            )@.mailbox.reset_tr(),
            old(self)@.mailbox.receivable() > 0 ==> turn_tr(
                old(self)@.mailbox,
                final(self)@.mailbox,
            ),
    {
        let status = match self.mailbox.peek() {
            Err(_) => {
                return None;
            },
            Ok(message) => self.processor.process(&mut self.state, &self.aid, message),
        };
        match status {
            Status::Processed => {
                let _ = self.mailbox.pop();
            },
            Status::Skipped => {
                let _ = self.mailbox.skip();
            },
            Status::ResetSkip => {
                let _ = self.mailbox.reset_skip();
            },
        }
        Some(status)
    }
}

/// Mailbox capacity used by `spawn`.
pub const DEFAULT_MAILBOX_CAPACITY: usize = 32;

/// Mathematical model of the actor system.
#[verifier::ext_equal]
pub ghost struct ActorSystemModel<S, M, P> {
    pub node_id: u128,
    pub run_queue: PooledQueueModel<usize>,
    pub actors: Seq<ActorModel<S, M, P>>,
    pub worker_count: u16,
}

impl<S, M, P> ActorSystemModel<S, M, P> {
    /// Whether `aid` identifies an actor of this system.
    pub open spec fn holds_actor(self, aid: ActorId) -> bool {
        &&& aid.sender is Local
        &&& aid.node_id == self.node_id
        &&& aid.id < self.actors.len()
    }

    /// The system invariant. Besides well-formedness of every part, it pins
    /// the scheduling discipline: an actor identity stands in the run queue
    /// exactly when its mailbox has a deliverable message, and never more
    /// than once — the run queue is fed only on the edge where a deliverable
    /// count rises from 0.
    pub open spec fn inv(self) -> bool {
        &&& self.run_queue.inv()
        &&& self.actors.len() <= self.run_queue.capacity
        &&& forall|i: int|
            0 <= i < self.actors.len() ==> (#[trigger] self.actors[i]).mailbox.inv()
        &&& forall|i: int|
            0 <= i < self.actors.len() ==> (#[trigger] self.actors[i]).aid == (ActorId {
                id: i as usize,
                node_id: self.node_id,
                sender: ActorSender::Local,
            })
        &&& forall|k: int|
            0 <= k < self.run_queue.items.len() ==> (#[trigger] self.run_queue.items[k])
                < self.actors.len()
        &&& self.run_queue.items.no_duplicates()
        &&& forall|i: int|
            0 <= i < self.actors.len() ==> ((#[trigger] self.actors[i]).mailbox.receivable() > 0
                <==> self.run_queue.items.contains(i as usize))
    }
}

/// An actor system: the registry of actors it hosts (looked up by the local
/// id carried in an `ActorId`), the bounded run queue of ready actor
/// identities, and the worker count the embedder should run.
pub struct ActorSystem<S, M, P> {
    /// Id for this actor system and node.
    pub node_id: u128,
    run_queue: PooledQueue<usize>,
    actors: Vec<Actor<S, M, P>>,
    worker_count: u16,
}

impl<S, M, P> View for ActorSystem<S, M, P> {
    type V = ActorSystemModel<S, M, P>;

    closed spec fn view(&self) -> ActorSystemModel<S, M, P> {
        ActorSystemModel {
            node_id: self.node_id,
            run_queue: self.run_queue@,
            actors: self.actors@.map(|i: int, a: Actor<S, M, P>| a@),
            worker_count: self.worker_count,
        }
    }
}

/// Returns a node identity for a new runtime instance.
///
/// Relies on `uuid::Uuid::new_v4` for a freshly generated random UUID;
/// `as_u128` only converts it to an integer. The result comes from the
/// operating system's random number generator, so nothing is stated about
/// it. Like an allocation failure, an unavailable random source is an
/// environmental fault: `new_v4` panics on it, whatever the inputs.
#[verifier::external_body]
fn fresh_node_id() -> u128 {
    uuid::Uuid::new_v4().as_u128()
}

proof fn lemma_distinct_bounded_len(s: Seq<usize>, n: nat)
    requires
        s.no_duplicates(),
        forall|k: int| 0 <= k < s.len() ==> (#[trigger] s[k]) < n,
    ensures
        s.len() <= n,
{
    let f = |x: usize| x as int;
    assert forall|x1: usize, x2: usize| #[trigger] f(x1) == #[trigger] f(x2) implies x1 == x2 by {}
    assert(vstd::relations::injective(f));
    s.lemma_no_duplicates_injective(f);
    let t = s.map_values(f);
    t.unique_seq_to_set();
    vstd::set_lib::lemma_int_range(0, n as int);
    assert(t.to_set().subset_of(vstd::set_lib::set_int_range(0, n as int))) by {
        assert forall|e: int| t.to_set().contains(e) implies vstd::set_lib::set_int_range(
            0,
            n as int,
        ).contains(e) by {
            let k = choose|k: int| 0 <= k < t.len() && t[k] == e;
            assert(s[k] < n);
        }
    }
    vstd::set_lib::lemma_len_subset(t.to_set(), vstd::set_lib::set_int_range(0, n as int));
}

impl<S, M, P: Processor<S, M>> ActorSystem<S, M, P> {
    /// Well-formedness of the system as a value.
    pub open spec fn wf(self) -> bool {
        self@.inv()
    }

    /// Creates an actor system with the given run queue capacity and worker
    /// count, both at least 1. The system itself holds no threads; an
    /// embedder runs `worker_count` workers, each repeatedly calling
    /// `dispatch_one`.
    pub fn create(run_channel_size: u16, thread_pool_size: u16) -> (s: ActorSystem<S, M, P>)
        requires
            run_channel_size >= 1,
            thread_pool_size >= 1,
        ensures
            s.wf(),
            s@.actors.len() == 0,
            s@.run_queue.items == Seq::<usize>::empty(),
            s@.run_queue.capacity == run_channel_size,
            s@.run_queue.enqueued == 0,
            s@.worker_count == thread_pool_size,
    {
        ActorSystem {
            node_id: fresh_node_id(),
            run_queue: crate::pooled_queue::create(run_channel_size as usize),
            actors: Vec::new(),
            worker_count: thread_pool_size,
        }
    }

    /// The worker count the system was created with.
    pub fn worker_count(&self) -> (r: u16)
        ensures
            r == self@.worker_count,
    {
        self.worker_count
    }

    /// Number of actors spawned so far.
    pub fn actor_count(&self) -> (r: usize)
        ensures
            r == self@.actors.len(),
    {
        self.actors.len()
    }

    /// Number of actor identities currently waiting in the run queue.
    pub fn run_queue_length(&self) -> (r: usize)
        ensures
            r == self@.run_queue.items.len(),
    {
        self.run_queue.length()
    }

    /// The run queue capacity the system was created with; it also bounds
    /// how many actors the system will register.
    pub fn run_queue_capacity(&self) -> (r: usize)
        ensures
            r == self@.run_queue.capacity,
    {
        self.run_queue.capacity()
    }

    /// Total number of run queue enqueues since the system was created.
    pub fn run_queue_enqueued(&self) -> (r: usize)
        ensures
            r == self@.run_queue.enqueued,
    {
        self.run_queue.enqueued()
    }

    /// The actor with the given local id, if any: the read side of the
    /// registry.
    pub fn actor(&self, id: usize) -> (r: Option<&Actor<S, M, P>>)
        ensures
            id < self@.actors.len() ==> (r matches Some(a) && a@ == self@.actors[id as int]),
            id >= self@.actors.len() ==> r is None,
    {
        if id < self.actors.len() {
            Some(&self.actors[id])
        } else {
            None
        }
    }

    /// Executes one dispatcher step, as each worker does per loop
    /// iteration: pop the run queue; given an identity, resolve the actor
    /// through the registry, run exactly one turn on it, and re-enqueue the
    /// identity if messages remain deliverable. Returns false, changing
    /// nothing, when the run queue is empty — which, by the scheduling
    /// invariant, happens only when no actor anywhere has a deliverable
    /// message. A popped identity always has one, so no turn is spurious.
    pub fn dispatch_one(&mut self) -> (progress: bool)
        requires
            old(self).wf(),
            old(self)@.run_queue.enqueued < usize::MAX,
        ensures
            final(self).wf(),
            final(self)@.node_id == old(self)@.node_id,
            final(self)@.worker_count == old(self)@.worker_count,
            final(self)@.actors.len() == old(self)@.actors.len(),
            final(self)@.run_queue.capacity == old(self)@.run_queue.capacity,
            final(self)@.run_queue.enqueued <= old(self)@.run_queue.enqueued + 1,
            progress <==> old(self)@.run_queue.items.len() > 0,
            progress ==> final(self)@.run_queue.dequeued == old(self)@.run_queue.dequeued + 1,
            !progress ==> final(self)@.run_queue.dequeued == old(self)@.run_queue.dequeued,
            !progress ==> final(self)@ == old(self)@ && (forall|i: int|
                0 <= i < old(self)@.actors.len() ==> (#[trigger] old(
                    self,
                )@.actors[i]).mailbox.receivable() == 0),
            progress ==> ({
                let id = old(self)@.run_queue.items[0];
                let rest = old(self)@.run_queue.items.subrange(
                    1,
                    old(self)@.run_queue.items.len() as int,
                );
                &&& old(self)@.actors[id as int].mailbox.receivable() > 0
                &&& turn_tr(
                    old(self)@.actors[id as int].mailbox,
                    final(self)@.actors[id as int].mailbox,
                )
                &&& final(self)@.actors[id as int].aid == old(self)@.actors[id as int].aid
                &&& forall|j: int|
                    0 <= j < old(self)@.actors.len() && j != id ==> final(self)@.actors[j] == old(
                        self,
                    )@.actors[j]
                &&& final(self)@.run_queue.items == (if final(self)@.actors[id as int].mailbox.receivable() > 0 {
                    rest.push(id)
                } else {
                    rest
                })
            }),
    {
        let ghost pre = self@;
        let popped = self.run_queue.pop();
        match popped {
            Err(_) => {
                proof {
                    assert(self@ =~= pre);
                    assert forall|i: int|
                        0 <= i < pre.actors.len() implies (#[trigger] pre.actors[i]).mailbox
                        .receivable() == 0 by {
                        if pre.actors[i].mailbox.receivable() > 0 {
                            assert(pre.run_queue.items.contains(i as usize));
                        }
                    }
                }
                false
            },
            Ok(id) => {
                let ghost items0 = pre.run_queue.items;
                let ghost items1 = items0.subrange(1, items0.len() as int);
                proof {
                    assert(items0[0] < pre.actors.len());
                    assert(items0.contains(items0[0]));
                    assert(pre.actors[id as int].mailbox.receivable() > 0);
                    assert forall|i: int, j: int|
                        0 <= i < j < items1.len() implies items1[i] != items1[j] by {
                        assert(items1[i] == items0[i + 1]);
                        assert(items1[j] == items0[j + 1]);
                    }
                    assert(items1.no_duplicates());
                    assert forall|k: int|
                        0 <= k < items1.len() implies (#[trigger] items1[k])
                            < pre.actors.len() by {
                        assert(items1[k] == items0[k + 1]);
                    }
                    assert(!items1.contains(id)) by {
                        if items1.contains(id) {
                            let k = choose|k: int| 0 <= k < items1.len() && items1[k] == id;
                            assert(items0[k + 1] == id && items0[0] == id);
                        }
                    }
                }
                let actor = &mut self.actors[id];
                let _ = actor.receive();
                let still = actor.receivable();
                proof {
                    assert(self@.actors.len() == pre.actors.len());
                    assert forall|j: int|
                        0 <= j < pre.actors.len() && j != id implies self@.actors[j]
                        == pre.actors[j] by {}
                    assert(self@.run_queue.items == items1);
                    assert forall|j: usize|
                        j != id implies (items1.contains(j) <==> items0.contains(j)) by {
                        if items1.contains(j) {
                            let k = choose|k: int| 0 <= k < items1.len() && items1[k] == j;
                            assert(items0[k + 1] == j);
                        }
                        if items0.contains(j) {
                            let k = choose|k: int| 0 <= k < items0.len() && items0[k] == j;
                            assert(k != 0);
                            assert(items1[k - 1] == j);
                        }
                    }
                }
                if still > 0 {
                    let _ = self.run_queue.push(id);
                    proof {
                        let items2 = items1.push(id);
                        assert(self@.run_queue.items == items2);
                        assert(self@.run_queue.items.no_duplicates());
                        assert(items2[items1.len() as int] == id);
                        assert(items2.contains(id));
                        assert forall|j: usize|
                            j != id implies (items2.contains(j) <==> items1.contains(j)) by {
                            if items2.contains(j) {
                                let k = choose|k: int| 0 <= k < items2.len() && items2[k] == j;
                                assert(k < items1.len());
                                assert(items1[k] == j);
                            }
                            if items1.contains(j) {
                                let k = choose|k: int| 0 <= k < items1.len() && items1[k] == j;
                                assert(items2[k] == j);
                            }
                        }
                        self.restore_sched_inv(pre, id as int, items2);
                    }
                } else {
                    proof {
                        self.restore_sched_inv(pre, id as int, items1);
                    }
                }
                true
            },
        }
    }

    /// Runs dispatcher steps until the run queue is empty or `fuel` turns
    /// have been taken, and returns whether the system went quiescent: no
    /// actor left with a deliverable message. A processor that keeps
    /// returning `ResetSkip` on the same message can put off quiescence
    /// forever, so the caller bounds the number of turns.
    pub fn run_until_idle(&mut self, fuel: usize) -> (idle: bool)
        requires
            old(self).wf(),
            old(self)@.run_queue.enqueued + fuel <= usize::MAX,
        ensures
            final(self).wf(),
            final(self)@.node_id == old(self)@.node_id,
            final(self)@.worker_count == old(self)@.worker_count,
            final(self)@.actors.len() == old(self)@.actors.len(),
            final(self)@.run_queue.capacity == old(self)@.run_queue.capacity,
            idle ==> final(self)@.run_queue.items.len() == 0,
            idle ==> forall|i: int|
                0 <= i < final(self)@.actors.len() ==> (
                #[trigger] final(self)@.actors[i]).mailbox.receivable() == 0,
            !idle ==> final(self)@.run_queue.dequeued == old(self)@.run_queue.dequeued + fuel,
    {
        let mut i: usize = 0;
        while i < fuel
            invariant
                i <= fuel,
                self.wf(),
                self@.run_queue.enqueued <= old(self)@.run_queue.enqueued + i,
                self@.run_queue.dequeued == old(self)@.run_queue.dequeued + i,
                self@.node_id == old(self)@.node_id,
                self@.worker_count == old(self)@.worker_count,
                self@.actors.len() == old(self)@.actors.len(),
                self@.run_queue.capacity == old(self)@.run_queue.capacity,
                old(self)@.run_queue.enqueued + fuel <= usize::MAX,
            decreases fuel - i,
        {
            let progress = self.dispatch_one();
            if !progress {
                return true;
            }
            i = i + 1;
        }
        false
    }

    /// Re-establishes the system invariant after a step that touched only
    /// actor `id`'s mailbox and left the run queue holding `items`: callers
    /// show that membership of every other actor is unchanged and that `id`
    /// stands in `items` exactly when it still has a deliverable message.
    proof fn restore_sched_inv(
        &self,
        pre: ActorSystemModel<S, M, P>,
        id: int,
        items: Seq<usize>,
    )
        requires
            pre.inv(),
            0 <= id < pre.actors.len(),
            self@.run_queue.inv(),
            self@.run_queue.capacity == pre.run_queue.capacity,
            self@.run_queue.items == items,
            self@.node_id == pre.node_id,
            self@.actors.len() == pre.actors.len(),
            forall|j: int|
                0 <= j < pre.actors.len() && j != id ==> self@.actors[j] == pre.actors[j],
            self@.actors[id].mailbox.inv(),
            self@.actors[id].aid == pre.actors[id].aid,
            items.no_duplicates(),
            forall|k: int| 0 <= k < items.len() ==> (#[trigger] items[k]) < pre.actors.len(),
            self@.actors[id].mailbox.receivable() > 0 <==> items.contains(id as usize),
            forall|j: usize|
                j != id ==> (items.contains(j) <==> pre.run_queue.items.contains(j)),
        ensures
            self@.inv(),
    {
        assert forall|i: int|
            0 <= i < self@.actors.len() implies (#[trigger] self@.actors[i]).mailbox.inv() by {
            if i != id {
                assert(self@.actors[i] == pre.actors[i]);
                assert(pre.actors[i].mailbox.inv());
            }
        }
        assert forall|i: int|
            0 <= i < self@.actors.len() implies (#[trigger] self@.actors[i]).aid == (ActorId {
                id: i as usize,
                node_id: self@.node_id,
                sender: ActorSender::Local,
            }) by {
            if i != id {
                assert(self@.actors[i] == pre.actors[i]);
            }
        }
        assert forall|i: int|
            0 <= i < self@.actors.len() implies ((#[trigger] self@.actors[i]).mailbox.receivable()
                > 0 <==> self@.run_queue.items.contains(i as usize)) by {
            if i != id {
                assert(self@.actors[i] == pre.actors[i]);
                assert(pre.actors[i].mailbox.receivable() > 0 <==> pre.run_queue.items.contains(
                    i as usize,
                ));
                assert(items.contains(i as usize) <==> pre.run_queue.items.contains(i as usize));
            }
        }
    }
}

/// Sends `message` to the actor identified by `aid`. Fails with `Full`,
/// changing nothing, exactly when the target mailbox is at capacity; an
/// embedder that wants the blocking behaviour waits and retries. On
/// acceptance, if the mailbox's deliverable count rose from 0 to 1, the
/// actor identity is enqueued on the run queue — the only moment a
/// producer schedules the actor.
pub fn send<S, M, P: Processor<S, M>>(
    system: &mut ActorSystem<S, M, P>,
    aid: &ActorId,
    message: M,
) -> (r: Result<(), MailboxError>)
    requires
        old(system).wf(),
        old(system)@.holds_actor(*aid),
        old(system)@.actors[aid.id as int].mailbox.sent < usize::MAX,
        old(system)@.run_queue.enqueued < usize::MAX,
    ensures
        final(system).wf(),
        final(system)@.node_id == old(system)@.node_id,
        final(system)@.worker_count == old(system)@.worker_count,
        final(system)@.actors.len() == old(system)@.actors.len(),
        final(system)@.run_queue.capacity == old(system)@.run_queue.capacity,
        final(system)@.run_queue.enqueued <= old(system)@.run_queue.enqueued + 1,
        forall|j: int|
            0 <= j < old(system)@.actors.len() && j != aid.id ==> final(system)@.actors[j] == old(
                system,
            )@.actors[j],
        final(system)@.actors[aid.id as int].aid == old(system)@.actors[aid.id as int].aid,
        final(system)@.actors[aid.id as int].state == old(system)@.actors[aid.id as int].state,
        final(system)@.actors[aid.id as int].processor == old(
            system,
        )@.actors[aid.id as int].processor,
        !old(system)@.actors[aid.id as int].mailbox.can_push() ==> {
            &&& r == Err::<(), MailboxError>(MailboxError::Full)
            &&& final(system)@ == old(system)@
        },
        old(system)@.actors[aid.id as int].mailbox.can_push() ==> {
            &&& r == Ok::<(), MailboxError>(())
            &&& final(system)@.actors[aid.id as int].mailbox == old(
                system,
            )@.actors[aid.id as int].mailbox.push_tr(message)
            &&& (old(system)@.actors[aid.id as int].mailbox.receivable() == 0 ==> final(system)@.run_queue.items == old(system)@.run_queue.items.push(aid.id))
            &&& (old(system)@.actors[aid.id as int].mailbox.receivable() > 0 ==> final(system)@.run_queue.items == old(system)@.run_queue.items)
        },
{
    let ghost pre = system@;
    let idx: usize = aid.id;
    let actor = &mut system.actors[idx];
    let pushed = actor.deliver(message);
    match pushed {
        Err(e) => {
            proof {
                assert(system@.actors =~= pre.actors);
                assert(system@ =~= pre);
                assert(system@.inv());
            }
            Err(e)
        },
        Ok(readable) => {
            proof {
                assert(system@.actors.len() == pre.actors.len());
                assert forall|j: int|
                    0 <= j < pre.actors.len() && j != idx implies system@.actors[j]
                    == pre.actors[j] by {}
                assert(system@.actors[idx as int].mailbox == pre.actors[idx as int].mailbox.push_tr(
                    message,
                ));
            }
            if readable == 1 {
                proof {
                    assert(pre.actors[idx as int].mailbox.receivable() == 0);
                    assert(!pre.run_queue.items.contains(idx));
                    assert(pre.run_queue.items.push(idx).no_duplicates());
                    assert forall|k: int|
                        0 <= k < pre.run_queue.items.push(idx).len() implies (
                    #[trigger] pre.run_queue.items.push(idx)[k]) < pre.actors.len() by {}
                    lemma_distinct_bounded_len(pre.run_queue.items.push(idx), pre.actors.len());
                }
                let _ = system.run_queue.push(idx);
                proof {
                    let items2 = pre.run_queue.items.push(idx);
                    assert(items2[pre.run_queue.items.len() as int] == idx);
                    assert(items2.contains(idx));
                    assert forall|j: usize|
                        j != idx implies (items2.contains(j) <==> pre.run_queue.items.contains(
                        j,
                    )) by {
                        if items2.contains(j) {
                            let k = choose|k: int| 0 <= k < items2.len() && items2[k] == j;
                            assert(k < pre.run_queue.items.len());
                            assert(pre.run_queue.items[k] == j);
                        }
                        if pre.run_queue.items.contains(j) {
                            let k = choose|k: int|
                                0 <= k < pre.run_queue.items.len() && pre.run_queue.items[k] == j;
                            assert(items2[k] == j);
                        }
                    }
                    system.restore_sched_inv(pre, idx as int, items2);
                }
            } else {
                proof {
                    assert(pre.actors[idx as int].mailbox.receivable() > 0);
                    assert(pre.run_queue.items.contains(idx));
                    system.restore_sched_inv(pre, idx as int, pre.run_queue.items);
                }
            }
            Ok(())
        },
    }
}

/// At most one turn per actor: in a well-formed system no actor identity
/// stands in the run queue twice, so two workers can never pop a claim on
/// the same actor — and since each dequeued claim drives exactly one turn,
/// handler invocations on one actor never overlap.
pub proof fn lemma_at_most_one_claim<S, M, P>(v: ActorSystemModel<S, M, P>, i: int, j: int)
    requires
        v.inv(),
        0 <= i < j < v.run_queue.items.len(),
    ensures
        v.run_queue.items[i] != v.run_queue.items[j],
{
}

/// No lost wakeup: whenever an actor has a deliverable message, its
/// identity stands in the run queue, so the queue is nonempty and the
/// workers' next dequeues reach the actor; producers never miss the 0-to-1
/// readiness edge.
pub proof fn lemma_no_lost_wakeup<S, M, P>(v: ActorSystemModel<S, M, P>, i: int)
    requires
        v.inv(),
        0 <= i < v.actors.len(),
        v.actors[i].mailbox.receivable() > 0,
    ensures
        v.run_queue.items.contains(i as usize),
        v.run_queue.items.len() > 0,
{
    let k = choose|k: int|
        0 <= k < v.run_queue.items.len() && v.run_queue.items[k] == i as usize;
    assert(v.run_queue.items.len() > 0);
}

/// The run queue never outgrows the registry: since each actor has at most
/// one outstanding claim, queue occupancy is bounded by the number of
/// actors, which spawning keeps below the queue's capacity — so every
/// scheduling push is accepted and no readiness edge is ever dropped.
pub proof fn lemma_run_queue_occupancy<S, M, P>(v: ActorSystemModel<S, M, P>)
    requires
        v.inv(),
    ensures
        v.run_queue.items.len() <= v.actors.len(),
{
    lemma_distinct_bounded_len(v.run_queue.items, v.actors.len());
}

/// Spawns a new actor on `system` with a mailbox of the given capacity (at
/// least 1), using `state` as the actor's starting state and `processor` to
/// process its messages; returns the new actor's identity. The registry
/// must still have room below the run queue capacity, which bounds how many
/// actors can be ready at once.
pub fn spawn_with_capacity<S, M, P: Processor<S, M>>(
    system: &mut ActorSystem<S, M, P>,
    state: S,
    processor: P,
    capacity: usize,
) -> (aid: ActorId)
    requires
        old(system).wf(),
        old(system)@.actors.len() < old(system)@.run_queue.capacity,
        capacity >= 1,
    ensures
        final(system).wf(),
        final(system)@.node_id == old(system)@.node_id,
        final(system)@.worker_count == old(system)@.worker_count,
        final(system)@.run_queue == old(system)@.run_queue,
        final(system)@.actors.len() == old(system)@.actors.len() + 1,
        forall|j: int|
            0 <= j < old(system)@.actors.len() ==> final(system)@.actors[j] == old(
                system,
            )@.actors[j],
        aid == (ActorId {
            id: old(system)@.actors.len() as usize,
            node_id: old(system)@.node_id,
            sender: ActorSender::Local,
        }),
        final(system)@.holds_actor(aid),
        final(system)@.actors.last().state == state,
        final(system)@.actors.last().processor == processor,
        final(system)@.actors.last().mailbox.contents == Seq::<M>::empty(),
        final(system)@.actors.last().mailbox.cursor == 0,
        final(system)@.actors.last().mailbox.sent == 0,
        final(system)@.actors.last().mailbox.received == 0,
        final(system)@.actors.last().mailbox.capacity == capacity,
{
    let id = system.actors.len();
    let actor = Actor::new(system.node_id, id, capacity, state, processor);
    let aid = actor.aid();
    let ghost pre = system@;
    system.actors.push(actor);
    proof {
        assert(system@.actors =~= pre.actors.push(actor@));
        assert forall|i: int|
            0 <= i < system@.actors.len() implies ((#[trigger] system@.actors[i]).mailbox
            .receivable() > 0 <==> system@.run_queue.items.contains(i as usize)) by {
            if i < pre.actors.len() {
                assert(pre.actors[i].mailbox.receivable() > 0 <==> pre.run_queue.items.contains(
                    i as usize,
                ));
            } else {
                if system@.run_queue.items.contains(i as usize) {
                    let k = choose|k: int|
                        0 <= k < pre.run_queue.items.len() && pre.run_queue.items[k] == i as usize;
                    assert(pre.run_queue.items[k] < pre.actors.len());
                }
            }
        }
    }
    aid
}

/// Spawns a new actor on `system` with the default mailbox capacity, using
/// the given `state` for the actor and the given `processor` function to
/// process the actor's messages.
pub fn spawn<S, M, P: Processor<S, M>>(
    system: &mut ActorSystem<S, M, P>,
    state: S,
    processor: P,
) -> (aid: ActorId)
    requires
        old(system).wf(),
        old(system)@.actors.len() < old(system)@.run_queue.capacity,
    ensures
        final(system).wf(),
        final(system)@.node_id == old(system)@.node_id,
        final(system)@.worker_count == old(system)@.worker_count,
        final(system)@.run_queue == old(system)@.run_queue,
        final(system)@.actors.len() == old(system)@.actors.len() + 1,
        forall|j: int|
            0 <= j < old(system)@.actors.len() ==> final(system)@.actors[j] == old(
                system,
            )@.actors[j],
        aid == (ActorId {
            id: old(system)@.actors.len() as usize,
            node_id: old(system)@.node_id,
            sender: ActorSender::Local,
        }),
        final(system)@.holds_actor(aid),
        final(system)@.actors.last().state == state,
        final(system)@.actors.last().processor == processor,
        final(system)@.actors.last().mailbox.contents == Seq::<M>::empty(),
        final(system)@.actors.last().mailbox.cursor == 0,
        final(system)@.actors.last().mailbox.sent == 0,
        final(system)@.actors.last().mailbox.received == 0,
        final(system)@.actors.last().mailbox.capacity == DEFAULT_MAILBOX_CAPACITY,
{
    spawn_with_capacity(system, state, processor, DEFAULT_MAILBOX_CAPACITY)
}

} // verus!
