//! Tests for the actor system: spawning, sending, scheduling on the 0-to-1
//! readiness edge, skip/reset turn semantics, and quiescence counters.

use actor_runtime::actors::{
    send, spawn, spawn_with_capacity, ActorId, ActorSystem, Processor, Status,
};
use actor_runtime::mailbox::MailboxError;

#[derive(Debug)]
enum Operation {
    Inc,
    #[allow(dead_code)]
    Dec,
}

#[derive(Debug)]
enum Msg {
    Op(Operation),
    Value(i32),
}

struct Data {
    count: i32,
    value: i32,
}

/// A processor that announces each message and reports it as processed.
struct GotAMessage;

impl Processor<Data, Msg> for GotAMessage {
    fn process(&mut self, _state: &mut Data, _aid: &ActorId, _message: &Msg) -> Status {
        println!("Got a Message");
        Status::Processed
    }
}

#[test]
fn test_spawn_with_closure() {
    let mut system = ActorSystem::create(10, 1);
    let data = Data { count: 0, value: 0 };
    let aid = spawn(&mut system, data, GotAMessage);
    send(&mut system, &aid, Msg::Op(Operation::Inc)).unwrap();
    send(&mut system, &aid, Msg::Op(Operation::Inc)).unwrap();
    send(&mut system, &aid, Msg::Value(10 as i32)).unwrap();
    assert!(system.run_until_idle(100));
    let actor = system.actor(aid.id).unwrap();
    assert_eq!(3, actor.sent());
    assert_eq!(3, actor.received());
    assert_eq!(0, actor.pending());
}

/// Adds each delivered integer to the actor's state.
struct AddUp;

impl Processor<i64, i64> for AddUp {
    fn process(&mut self, state: &mut i64, _aid: &ActorId, message: &i64) -> Status {
        *state += *message;
        Status::Processed
    }
}

/// Single producer, single actor, three increments: after quiescence the
/// state is the sum and the counters agree.
#[test]
fn single_producer_three_increments() {
    let mut system = ActorSystem::create(8, 1);
    let aid = spawn(&mut system, 0i64, AddUp);
    send(&mut system, &aid, 1).unwrap();
    send(&mut system, &aid, 2).unwrap();
    send(&mut system, &aid, 3).unwrap();
    assert!(system.run_until_idle(100));
    let actor = system.actor(aid.id).unwrap();
    assert_eq!(6, *actor.state());
    assert_eq!(3, actor.received());
    assert_eq!(0, actor.pending());
}

/// Records the delivered messages; skips the first two, resets on the
/// third, and processes everything afterwards.
struct SkipTwoThenReset {
    calls: u32,
}

impl Processor<Vec<char>, char> for SkipTwoThenReset {
    fn process(&mut self, state: &mut Vec<char>, _aid: &ActorId, message: &char) -> Status {
        self.calls += 1;
        state.push(*message);
        match self.calls {
            1 | 2 => Status::Skipped,
            3 => Status::ResetSkip,
            _ => Status::Processed,
        }
    }
}

/// Skip then reset: deliveries observed by the processor are A, B, C, then
/// again A, B (and finally C), in the original arrival order.
#[test]
fn skip_then_reset_order() {
    let mut system = ActorSystem::create(4, 1);
    let aid = spawn(&mut system, Vec::new(), SkipTwoThenReset { calls: 0 });
    send(&mut system, &aid, 'A').unwrap();
    send(&mut system, &aid, 'B').unwrap();
    send(&mut system, &aid, 'C').unwrap();
    assert!(system.run_until_idle(100));
    let actor = system.actor(aid.id).unwrap();
    assert_eq!(vec!['A', 'B', 'C', 'A', 'B', 'C'], *actor.state());
    assert_eq!(3, actor.received());
    assert_eq!(0, actor.pending());
}

/// Counts the turns the actor takes.
struct CountTurns;

impl Processor<u32, u8> for CountTurns {
    fn process(&mut self, state: &mut u32, _aid: &ActorId, _message: &u8) -> Status {
        *state += 1;
        Status::Processed
    }
}

/// The 0-to-1 scheduling edge: three sends from one producer while the
/// pool is idle cause exactly one producer-side run queue enqueue; the
/// remaining turns come from worker re-enqueues.
#[test]
fn zero_to_one_scheduling_edge() {
    let mut system = ActorSystem::create(8, 1);
    let aid = spawn_with_capacity(&mut system, 0u32, CountTurns, 4);
    send(&mut system, &aid, 1).unwrap();
    send(&mut system, &aid, 2).unwrap();
    send(&mut system, &aid, 3).unwrap();
    assert_eq!(1, system.run_queue_length());
    assert_eq!(1, system.run_queue_enqueued());

    assert!(system.dispatch_one());
    assert!(system.dispatch_one());
    assert!(system.dispatch_one());
    assert!(!system.dispatch_one());

    // one producer-side enqueue plus two worker re-enqueues
    assert_eq!(3, system.run_queue_enqueued());
    assert_eq!(0, system.run_queue_length());
    let actor = system.actor(aid.id).unwrap();
    assert_eq!(3, *actor.state());
    assert_eq!(3, actor.received());
}

/// A send into a full mailbox reports `Full` and nothing is lost; after a
/// drain the producer can continue.
#[test]
fn send_full_reports_error() {
    let mut system = ActorSystem::create(4, 1);
    let aid = spawn_with_capacity(&mut system, 0u32, CountTurns, 1);
    assert_eq!(Ok(()), send(&mut system, &aid, 1));
    assert_eq!(Err(MailboxError::Full), send(&mut system, &aid, 2));
    assert!(system.run_until_idle(10));
    assert_eq!(Ok(()), send(&mut system, &aid, 2));
    assert!(system.run_until_idle(10));
    let actor = system.actor(aid.id).unwrap();
    assert_eq!(2, *actor.state());
    assert_eq!(2, actor.sent());
}

/// Many actors, many producers: ten producers send one thousand messages
/// each, spread uniformly over one hundred counting actors; every counter
/// ends at exactly its targeted share and the counters sum to the total.
#[test]
fn many_actors_many_producers() {
    let mut system = ActorSystem::create(128, 4);
    let mut aids: Vec<ActorId> = Vec::new();
    for _ in 0..100 {
        aids.push(spawn(&mut system, 0u32, CountTurns));
    }
    let mut expected = [0u32; 100];
    for producer in 0..10usize {
        for k in 0..1000usize {
            let target = (producer * 1000 + k) % 100;
            expected[target] += 1;
            loop {
                match send(&mut system, &aids[target], 1) {
                    Ok(()) => break,
                    Err(_) => {
                        // mailbox full: let the pool drain before retrying
                        system.run_until_idle(100);
                    }
                }
            }
        }
    }
    assert!(system.run_until_idle(20000));

    let mut total: u64 = 0;
    for (idx, aid) in aids.iter().enumerate() {
        let actor = system.actor(aid.id).unwrap();
        assert_eq!(expected[idx], *actor.state());
        assert_eq!(0, actor.pending());
        total += u64::from(*actor.state());
    }
    assert_eq!(10_000, total);
}

/// Actor identities compare by local id and node id alone, and ids are
/// unique within a system.
#[test]
fn actor_id_equality() {
    let mut system = ActorSystem::create(4, 1);
    let aid0 = spawn(&mut system, 0i64, AddUp);
    let aid1 = spawn(&mut system, 0i64, AddUp);
    assert_ne!(aid0, aid1);
    assert_eq!(aid0, aid0.clone());
    assert_eq!(0, aid0.id);
    assert_eq!(1, aid1.id);
    assert_eq!(aid0.node_id, aid1.node_id);
    assert_eq!(aid0.node_id, system.node_id);
}
