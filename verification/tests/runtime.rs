use std::time::Instant;
use frand_node::callback::{Callback, CallbackMode};
use frand_node::component::{Action, Received, Scheduler};
use frand_node::consensus::Consensus;
use frand_node::lookup::Lookup;
use frand_node::node::{NewNode, NodeAlt};
use frand_node::packet::{
    AltDepth, Consist, Id, Key, MessagePacket, MessagePacketCarry, MessagePacketFuture,
    MessagePacketMessage, Packet, Payload, Transient,
};
use frand_node::proxy::{self, Proxy};
use frand_node::message::Message as NodeMessage;
use frand_node::vec::Message as VecMessage;

fn depth(d: u32) -> AltDepth {
    AltDepth::default().add(d)
}

fn key(i: u32) -> Key {
    Key::new(Consist::new(Id::default().add(i), depth(0)), Transient::default())
}

type Packet3 = MessagePacket<u32, &'static str, &'static str>;

fn message(i: u32, m: u32) -> Packet3 {
    MessagePacket::Message(MessagePacketMessage::new(key(i), m))
}

fn carry(i: u32, c: &'static str) -> Packet3 {
    MessagePacket::Carry(MessagePacketCarry { key: key(i), instant: Instant::now(), lookup: c })
}

#[test]
fn callback_access_and_emit() {
    let root = Callback::new(Consist::default());
    let child = Callback::access::<VecMessage<u32>>(root.consist(), 4);
    assert_eq!(child.consist(), Consist::new(Id::default().add(4), depth(1)));
    let terminal_child = Callback::access::<u32>(root.consist(), 2);
    assert_eq!(terminal_child.consist(), Consist::new(Id::default().add(2), depth(0)));
    let t = Transient::default().alt(depth(0), 3);
    let emission = child.emit(&CallbackMode::Process, &t, 77u8);
    assert_eq!(emission.mode, CallbackMode::Process);
    assert_eq!(emission.packet.key, Key::new(child.consist(), t));
    assert_eq!(emission.packet.message, 77);
    assert!(emission.packet.instant.is_none());
    assert_eq!(child.key(&t), Key::new(child.consist(), t));
}

#[test]
fn node_positions_and_emission() {
    let callback = Callback::new(Consist::new(Id::default().add(6), depth(1)));
    let node = NodeAlt::new(&callback, CallbackMode::Default, Transient::default());
    assert_eq!(node.key(), Key::new(callback.consist(), Transient::default()));
    let parent = Consist::new(Id::default().add(2), depth(0));
    let alt = node.alt(&parent, 8);
    assert_eq!(alt.transient().index(depth(0)), 8);
    assert_eq!(alt.consist(), node.consist());
    assert_eq!(alt.callback_mode(), CallbackMode::Default);
    let emission = alt.emit::<u16>(5);
    assert_eq!(emission.packet.key, alt.key());
    assert_eq!(emission.packet.message, 5);
    let raw = alt.emit_message(VecMessage::<u32>::Pop);
    assert!(matches!(raw.packet.message, VecMessage::Pop));
}

#[test]
fn consensus_applies_messages_to_its_state() {
    let mut consensus: Consensus<VecMessage<u32>> = Consensus::new(vec![1, 2]);
    consensus.apply(&VecMessage::Push(3));
    assert_eq!(consensus.state(), &vec![1, 2, 3]);
    consensus.apply(&VecMessage::Item(0, 9));
    assert_eq!(consensus.state(), &vec![9, 2, 3]);
    consensus.apply(&VecMessage::Len(1));
    assert_eq!(consensus.state(), &vec![9]);
    assert_eq!(consensus.node().callback_mode(), CallbackMode::Default);
    assert_eq!(consensus.process_node().callback_mode(), CallbackMode::Process);
    assert_eq!(consensus.node().key(), Key::default());
    assert_eq!(consensus.process_node().key(), Key::default());
}

#[test]
fn proxy_takes_only_packets_addressed_to_itself() {
    let parent = key(10);
    let own = Packet::new(key(10), Payload::default());
    let name = "frand_node::proxy::Message<u32>";
    assert!(proxy::route::<u32>(&own, &parent, 2, name).is_ok());
    let other = Packet::new(key(13), Payload::new(vec![1]));
    let err = proxy::route::<u32>(&other, &parent, 2, name).unwrap_err();
    assert_eq!(err.id_delta(), Some(3));
    assert_eq!(err.depth(), Some(2));
    assert_eq!(err.message(), "frand_node::proxy::Message<u32>: unknown id_delta");
    assert_eq!(err.packet().key(), key(13));
    assert_eq!(err.packet().payload().bytes(), Some(&vec![1u8]));
}

#[test]
fn proxy_messages_keep_an_empty_state() {
    let mut state: Proxy<u32> = Proxy::new();
    proxy::Message::State(Proxy::new()).apply_to(&mut state);
    assert_eq!(<proxy::Message<u32> as NodeMessage>::node_alt_size(), 0);
    assert!(matches!(<proxy::Message<u32> as NodeMessage>::into_message(Proxy::default()), proxy::Message::State(_)));
}

#[test]
fn scheduler_applies_each_key_once_per_cascade() {
    let mut scheduler: Scheduler<&'static str> = Scheduler::new();
    assert!(matches!(scheduler.schedule(Some(message(1, 10))), Action::Apply(p) if p.message == 10));
    assert!(matches!(scheduler.schedule(Some(message(2, 20))), Action::Apply(_)));
    assert!(matches!(scheduler.schedule(Some(message(1, 11))), Action::Skip));
    assert!(matches!(scheduler.schedule(Some(carry(1, "late"))), Action::Skip));
    assert!(matches!(scheduler.schedule(Some(carry(3, "c"))), Action::Evaluate(c) if c.lookup == "c"));
    assert!(matches!(scheduler.schedule::<u32, &str>(None), Action::Done));
    let future: Packet3 = MessagePacket::Future(MessagePacketFuture {
        key: key(1),
        instant: Instant::now(),
        future: "later",
    });
    assert!(matches!(scheduler.schedule(Some(future)), Action::Defer(f) if f.future == "later"));
    assert!(matches!(scheduler.schedule(Some(message(4, 40))), Action::Apply(_)));
    scheduler.end_cascade();
    assert!(matches!(scheduler.schedule(Some(message(1, 12))), Action::Apply(p) if p.message == 12));
}

#[test]
fn scheduler_parks_the_latest_carry_per_key() {
    let mut scheduler: Scheduler<&'static str> = Scheduler::new();
    assert!(matches!(scheduler.receive(carry(5, "first")), Received::Parked));
    assert!(matches!(scheduler.receive(carry(6, "other")), Received::Parked));
    assert!(matches!(scheduler.receive(carry(5, "second")), Received::Parked));
    assert!(matches!(scheduler.receive(message(7, 1)), Received::Next(p) if p.message == 1));
    let future: Packet3 = MessagePacket::Future(MessagePacketFuture {
        key: key(8),
        instant: Instant::now(),
        future: "pending",
    });
    assert!(matches!(scheduler.receive(future), Received::Deferred(f) if f.future == "pending"));
    let carries = scheduler.take_carries();
    let parked: Vec<(Key, &str)> = carries.iter().map(|c| (c.key, c.lookup)).collect();
    assert_eq!(parked, vec![(key(5), "second"), (key(6), "other")]);
    assert!(scheduler.take_carries().is_empty());
}

#[test]
fn lookup_calls_its_function() {
    let lookup = Lookup::new(|t: Transient| if t.index(AltDepth::default()) == 0 { None } else { Some(t.index(AltDepth::default()) * 2) });
    assert_eq!(lookup.get(&Transient::default()), None);
    assert_eq!(lookup.get(&Transient::default().alt(AltDepth::default(), 4)), Some(8));
}

#[test]
fn a_root_emission_applied_to_the_consensus_sets_its_state() {
    let mut consensus: Consensus<VecMessage<u32>> = Consensus::new(vec![1]);
    let emission = consensus.node().emit::<VecMessage<u32>>(vec![4, 5]);
    assert_eq!(emission.packet.key, Key::default());
    consensus.apply(&emission.packet.message);
    assert_eq!(consensus.state(), &vec![4, 5]);
}
