use frand_node::packet::{
    AltDepth, Consist, Id, Key, MessagePacketMessage, Packet, Payload, Transient,
};

fn depth(d: u32) -> AltDepth {
    AltDepth::default().add(d)
}

fn id(i: u32) -> Id {
    Id::default().add(i)
}

#[test]
fn id_add_then_sub_gives_delta() {
    let base = id(40);
    assert_eq!(base.add(7).sub(base), 7);
    assert_eq!(base.sub(Id::default()), 40);
    assert_eq!(base.sub(base), 0);
}

#[test]
fn id_add_to_the_limit() {
    let top = id(u32::MAX - 1).add(1);
    assert_eq!(top.sub(Id::default()), u32::MAX);
}

#[test]
fn consist_access_moves_id_and_depth() {
    let c = Consist::new(id(3), depth(1));
    let child = c.access(4, 1);
    assert_eq!(child.id().sub(Id::default()), 7);
    assert_eq!(child.alt_depth(), depth(2));
    assert_eq!(c.access(0, 0), c);
}

#[test]
fn consist_access_composes() {
    let c = Consist::new(id(3), depth(0));
    assert_eq!(c.access(2, 1).access(5, 1), c.access(7, 2));
}

#[test]
fn consist_default_is_root() {
    let c = Consist::default();
    assert_eq!(c.id(), Id::default());
    assert_eq!(c.alt_depth(), AltDepth::default());
}

#[test]
fn transient_alt_records_index_at_depth_only() {
    let t = Transient::default().alt(depth(2), 9);
    assert_eq!(t.index(depth(2)), 9);
    assert_eq!(t.index(depth(0)), 0);
    assert_eq!(t.index(depth(1)), 0);
    assert_eq!(t.index(depth(3)), 0);
    let t2 = t.alt(depth(2), 4).alt(depth(3), 1);
    assert_eq!(t2.index(depth(2)), 4);
    assert_eq!(t2.index(depth(3)), 1);
}

#[test]
fn key_alt_records_index_at_own_depth() {
    let consist = Consist::new(id(5), depth(1));
    let key = Key::new(consist, Transient::default()).alt(7);
    assert_eq!(key.transient().index(depth(1)), 7);
    assert_eq!(key.transient().index(depth(0)), 0);
    assert_eq!(key.consist(), consist);
}

#[test]
fn key_access_keeps_transient() {
    let t = Transient::default().alt(depth(0), 2);
    let key = Key::new(Consist::default(), t).access(4, 1);
    assert_eq!(key.transient(), t);
    assert_eq!(key.consist(), Consist::default().access(4, 1));
}

#[test]
fn key_same_compares_every_part() {
    let a = Key::new(Consist::new(id(1), depth(0)), Transient::default());
    let b = Key::new(Consist::new(id(1), depth(0)), Transient::default());
    let c = Key::new(Consist::new(id(1), depth(1)), Transient::default());
    let d = Key::new(Consist::new(id(1), depth(0)), Transient::default().alt(depth(3), 1));
    let e = Key::new(Consist::new(id(2), depth(0)), Transient::default());
    assert!(a.same(&b));
    assert!(!a.same(&c));
    assert!(!a.same(&d));
    assert!(!a.same(&e));
    assert!(Key::default().same(&Key::new(Consist::default(), Transient::default())));
}

#[test]
fn payload_and_packet_carry_what_they_are_given() {
    let payload = Payload::new(vec![1, 2, 3]);
    assert_eq!(payload.bytes(), Some(&vec![1u8, 2, 3]));
    assert_eq!(Payload::default().bytes(), None);
    let key = Key::new(Consist::new(id(2), depth(0)), Transient::default());
    let packet = Packet::new(key, payload);
    assert_eq!(packet.key(), key);
    assert_eq!(packet.payload().bytes(), Some(&vec![1u8, 2, 3]));
    let copy = packet.clone();
    assert_eq!(copy.key(), key);
    assert_eq!(copy.payload().bytes(), Some(&vec![1u8, 2, 3]));
}

#[test]
fn message_packet_index_and_wrap() {
    let key = Key::new(Consist::new(id(9), depth(2)), Transient::default().alt(depth(1), 6));
    let packet = MessagePacketMessage::new(key, 10u32);
    assert_eq!(packet.index(depth(1)), 6);
    assert_eq!(packet.index(depth(0)), 0);
    let wrapped = packet.wrap(depth(1), |index, message| (index, message + 1));
    assert_eq!(wrapped.key, key);
    assert!(wrapped.instant.is_none());
    assert_eq!(wrapped.message, (6, 11));
}
