use frand_node::callback::{Callback, CallbackMode, Forwarded, Wrap};
use frand_node::message::Message as NodeMessage;
use frand_node::node::{NewNode, NodeAlt};
use frand_node::packet::{
    AltDepth, Consist, Id, Key, MessagePacket, MessagePacketCarry, MessagePacketFuture, MessagePacketMessage, Transient,
};
use frand_node::packet::Packet;
use frand_node::terminal;
use frand_node::vec::{
    item_message, lookup_item, lookup_item_at, lookup_len, route, ItemWrap, LenWrap, PopWrap, PushWrap, wrap_item, wrap_item_packet, wrap_len, wrap_pop, wrap_push,
    Emitter, Message, Node, VecRoute, ITEM_ID_DELTA, LEN_ID_DELTA, POP_ID_DELTA, PUSH_ID_DELTA,
};

fn depth(d: u32) -> AltDepth {
    AltDepth::default().add(d)
}

fn consist(i: u32, d: u32) -> Consist {
    Consist::new(Id::default().add(i), depth(d))
}

fn apply(message: Message<u32>, mut state: Vec<u32>) -> Vec<u32> {
    message.apply_to(&mut state);
    state
}

#[test]
fn push_appends_and_pop_removes_last() {
    assert_eq!(apply(Message::Push(4), vec![1, 2]), vec![1, 2, 4]);
    assert_eq!(apply(Message::Pop, vec![1, 2]), vec![1]);
    assert_eq!(apply(Message::Pop, vec![]), Vec::<u32>::new());
}

#[test]
fn pop_undoes_push() {
    let before = vec![5u32, 6, 7];
    let after = apply(Message::Pop, apply(Message::Push(9), before.clone()));
    assert_eq!(after, before);
}

#[test]
fn len_truncates_or_fills_with_defaults() {
    assert_eq!(apply(Message::Len(1), vec![3, 4, 5]), vec![3]);
    assert_eq!(apply(Message::Len(4), vec![3]), vec![3, 0, 0, 0]);
    assert_eq!(apply(Message::Len(0), vec![3, 4]), Vec::<u32>::new());
    assert_eq!(apply(Message::Len(2), vec![3, 4]), vec![3, 4]);
}

#[test]
fn item_changes_only_existing_item() {
    assert_eq!(apply(Message::Item(1, 8), vec![3, 4, 5]), vec![3, 8, 5]);
    assert_eq!(apply(Message::Item(3, 8), vec![3, 4, 5]), vec![3, 4, 5]);
}

#[test]
fn state_replaces_everything() {
    assert_eq!(apply(Message::State(vec![9, 9]), vec![3, 4, 5]), vec![9, 9]);
    let message = <Message<u32> as NodeMessage>::into_message(vec![1]);
    assert_eq!(apply(message, vec![3, 4, 5]), vec![1]);
}

#[test]
fn nested_vectors_apply_at_depth() {
    let mut state: Vec<Vec<u32>> = vec![vec![1], vec![2, 3]];
    Message::<Message<u32>>::Item(1, Message::Item(0, 7)).apply_to(&mut state);
    assert_eq!(state, vec![vec![1], vec![7, 3]]);
    Message::<Message<u32>>::Item(0, Message::Push(4)).apply_to(&mut state);
    assert_eq!(state, vec![vec![1, 4], vec![7, 3]]);
    Message::<Message<u32>>::Len(3).apply_to(&mut state);
    assert_eq!(state, vec![vec![1, 4], vec![7, 3], vec![]]);
    let copy = <Message<Message<u32>> as NodeMessage>::clone_state(&state);
    assert_eq!(copy, state);
    assert_eq!(<Message<u32> as NodeMessage>::node_alt_size(), 1);
    assert_eq!(<Message<u32> as NodeMessage>::default_state(), Vec::<u32>::new());
}

#[test]
fn route_reads_the_child_from_the_id_delta() {
    let parent = Key::new(consist(10, 1), Transient::default().alt(depth(0), 2));
    let at = |delta: u32, index: u32| {
        Key::new(consist(10 + delta, 2), Transient::default().alt(depth(1), index))
    };
    assert!(matches!(route(&at(0, 0), &parent), VecRoute::State));
    assert!(matches!(route(&at(PUSH_ID_DELTA, 0), &parent), VecRoute::Push));
    assert!(matches!(route(&at(POP_ID_DELTA, 0), &parent), VecRoute::Pop));
    match route(&at(LEN_ID_DELTA, 0), &parent) {
        VecRoute::Len(key) => {
            assert_eq!(key.consist(), consist(13, 2));
            assert_eq!(key.transient(), parent.transient());
        },
        _ => panic!("expected the length child"),
    }
    match route(&at(ITEM_ID_DELTA + 5, 3), &parent) {
        VecRoute::Item(index, key) => {
            assert_eq!(index, 3);
            assert_eq!(key.consist(), consist(14, 2));
            assert_eq!(key.transient(), parent.transient());
        },
        _ => panic!("expected an item"),
    }
}

#[test]
fn emitter_children_sit_at_their_deltas() {
    let emitter = Emitter::new::<u32>(Callback::new(consist(20, 0)));
    assert_eq!(emitter.callback().consist(), consist(20, 0));
    assert_eq!(emitter.push.consist(), consist(21, 1));
    assert_eq!(emitter.pop.consist(), consist(22, 1));
    assert_eq!(emitter.len.consist(), consist(23, 1));
    assert_eq!(emitter.item.consist(), consist(24, 1));
}

#[test]
fn child_messages_wrap_into_vector_messages() {
    match wrap_push::<u32>(0, 6) {
        Message::Push(item) => assert_eq!(item, 6),
        _ => panic!("expected push"),
    }
    let nested = wrap_push::<Message<u32>>(0, Message::Push(3));
    match nested {
        Message::Push(item) => assert_eq!(item, vec![3]),
        _ => panic!("expected push"),
    }
    assert!(matches!(wrap_pop::<u32>(0, ()), Message::Pop));
    assert!(matches!(wrap_len::<u32>(0, 5), Message::Len(5)));
    assert!(matches!(wrap_item::<u32>(2, 9), Message::Item(2, 9)));
}

#[test]
fn item_packets_wrap_with_their_recorded_index() {
    let key = Key::new(consist(30, 1), Transient::default().alt(depth(0), 4));
    let wrapped = wrap_item_packet(MessagePacketMessage::new(key, 8u32), depth(0));
    assert_eq!(wrapped.key, key);
    assert!(matches!(wrapped.message, Message::Item(4, 8)));
}

#[test]
fn item_nodes_record_their_index_and_route_back() {
    let parent_callback = Callback::new(consist(40, 1));
    let emitter = Emitter::new::<u32>(parent_callback);
    let transient = Transient::default().alt(depth(0), 1);
    let node = Node::new(&emitter, CallbackMode::Process, transient);
    assert_eq!(node.key(), Key::new(consist(40, 1), transient));
    let item: NodeAlt = node.item(5);
    assert_eq!(item.consist(), consist(44, 2));
    assert_eq!(item.transient().index(depth(1)), 5);
    assert_eq!(item.transient().index(depth(0)), 1);
    assert_eq!(item.callback_mode(), CallbackMode::Process);
    match route(&item.key(), &node.key()) {
        VecRoute::Item(index, _) => assert_eq!(index, 5),
        _ => panic!("expected an item"),
    }
    let items = node.items(3);
    assert_eq!(items.len(), 3);
    for (i, n) in items.iter().enumerate() {
        assert_eq!(n.transient().index(depth(1)), i as u32);
    }
}

#[test]
fn push_and_pop_are_emitted_through_their_children() {
    let emitter = Emitter::new::<u32>(Callback::new(consist(50, 0)));
    let node = Node::new(&emitter, CallbackMode::Default, Transient::default());
    let push = node.emit_push::<u32>(12);
    assert_eq!(push.mode, CallbackMode::Default);
    assert_eq!(push.packet.key.consist(), consist(51, 1));
    assert_eq!(push.packet.message, 12);
    let pop = node.emit_pop();
    assert_eq!(pop.packet.key.consist(), consist(52, 1));
    assert!(matches!(route(&push.packet.key, &node.key()), VecRoute::Push));
    assert!(matches!(route(&pop.packet.key, &node.key()), VecRoute::Pop));
}

#[test]
fn lookups_read_items_and_length() {
    let items = vec![10u32, 20];
    assert_eq!(lookup_item(Some(&items), 1), Some(&20));
    assert_eq!(lookup_item(Some(&items), 2), None);
    assert_eq!(lookup_item::<u32>(None, 0), None);
    assert_eq!(lookup_len(Some(&items)), Some(2));
    assert_eq!(lookup_len::<u32>(None), None);
}

#[test]
fn an_emitted_push_wrapped_and_applied_appends_the_state() {
    let emitter = Emitter::new::<u32>(Callback::new(consist(60, 0)));
    let node = Node::new(&emitter, CallbackMode::Default, Transient::default());
    let emission = node.emit_push::<u32>(33);
    let wrapped = wrap_push::<u32>(0, emission.packet.message);
    assert_eq!(apply(wrapped, vec![1, 2]), vec![1, 2, 33]);
}

#[test]
fn item_message_hands_on_only_item_messages() {
    assert_eq!(item_message(Message::<u32>::Item(3, 7)), Some((3, 7)));
    assert_eq!(item_message(Message::<u32>::Pop), None);
    assert_eq!(item_message(Message::<u32>::Push(1)), None);
    assert_eq!(item_message(Message::<u32>::Len(2)), None);
    assert_eq!(item_message(Message::<u32>::State(vec![1])), None);
}

#[test]
fn an_item_packet_written_with_the_item_key_reads_back() {
    let parent = Key::new(consist(70, 1), Transient::default().alt(depth(0), 2));
    let item_key = Key::new(parent.consist().access(ITEM_ID_DELTA, 1), parent.transient().alt(depth(1), 6));
    let packet: Packet = terminal::to_packet(&99u32, item_key.alt(6));
    match route(&packet.key(), &parent) {
        VecRoute::Item(index, key) => {
            assert_eq!(index, 6);
            assert_eq!(terminal::read_packet::<u32>(&packet, key, 1), Some(99));
        },
        _ => panic!("expected an item"),
    }
}

type Plain<M> = MessagePacket<M, u8, u16>;

fn item_key(vector: &Emitter, at: u32, index: u32) -> Key {
    Key::new(vector.item.consist(), Transient::default().alt(depth(at), index))
}

#[test]
fn forwarded_item_messages_become_messages_to_their_item() {
    let vector = Emitter::new::<u32>(Callback::new(consist(10, 1)));
    let key = item_key(&vector, 1, 6);
    let packet: Plain<u32> = MessagePacket::Message(MessagePacketMessage::new(key, 8u32));
    match vector.forward_item(packet) {
        MessagePacket::Message(m) => {
            assert!(m.key.same(&key));
            assert!(m.instant.is_none());
            assert!(matches!(m.message, Message::Item(6, 8)));
        },
        _ => panic!("a ready message stays ready"),
    }
}

#[test]
fn forwarded_child_messages_become_push_pop_and_len() {
    let vector = Emitter::new::<u32>(Callback::new(consist(10, 0)));
    let key = Key::new(vector.push.consist(), Transient::default());
    let push: Plain<u32> = MessagePacket::Message(MessagePacketMessage::new(key, 5u32));
    match vector.forward_push(push) {
        MessagePacket::Message(m) => assert!(matches!(m.message, Message::Push(5))),
        _ => panic!("a ready message stays ready"),
    }
    let pop: Plain<()> = MessagePacket::Message(MessagePacketMessage::new(key, ()));
    match vector.forward_pop::<u32, _, _>(pop) {
        MessagePacket::Message(m) => assert!(matches!(m.message, Message::Pop)),
        _ => panic!("a ready message stays ready"),
    }
    let len: Plain<u32> = MessagePacket::Message(MessagePacketMessage::new(key, 3u32));
    match vector.forward_len::<u32, _, _>(len) {
        MessagePacket::Message(m) => assert!(matches!(m.message, Message::Len(3))),
        _ => panic!("a ready message stays ready"),
    }
}

#[test]
fn forwarded_carries_and_futures_keep_their_index_and_wrap() {
    let vector = Emitter::new::<u32>(Callback::new(consist(10, 2)));
    let key = item_key(&vector, 2, 4);
    let instant = std::time::Instant::now();
    let carry: Plain<u32> = MessagePacket::Carry(MessagePacketCarry { key, instant, lookup: 7u8 });
    match vector.forward_item(carry) {
        MessagePacket::Carry(c) => {
            assert!(c.key.same(&key));
            assert_eq!(c.instant, instant);
            let Forwarded { index, wrap, inner } = c.lookup;
            assert_eq!((index, inner), (4, 7u8));
            assert!(matches!(Wrap::<u32, Message<u32>>::wrap(&wrap, index, 9u32), Message::Item(4, 9)));
        },
        _ => panic!("a carried message stays carried"),
    }
    let future: Plain<u32> = MessagePacket::Future(MessagePacketFuture { key, instant, future: 11u16 });
    match vector.forward_item(future) {
        MessagePacket::Future(f) => {
            assert_eq!(f.instant, instant);
            assert_eq!((f.future.index, f.future.inner), (4, 11u16));
        },
        _ => panic!("a pending message stays pending"),
    }
}

#[test]
fn wraps_turn_child_messages_into_vector_messages() {
    assert!(matches!(Wrap::<u32, Message<u32>>::wrap(&PushWrap, 0, 3u32), Message::Push(3)));
    assert!(matches!(Wrap::<(), Message<u32>>::wrap(&PopWrap, 0, ()), Message::Pop));
    assert!(matches!(Wrap::<u32, Message<u32>>::wrap(&LenWrap, 0, 2u32), Message::Len(2)));
    assert!(matches!(Wrap::<u32, Message<u32>>::wrap(&ItemWrap, 5, 1u32), Message::Item(5, 1)));
}

#[test]
fn a_callback_forwards_at_its_own_depth() {
    let parent = Callback::new(consist(3, 1));
    let transient = Transient::default().alt(depth(0), 2).alt(depth(1), 9);
    let key = Key::new(consist(7, 2), transient);
    let packet: Plain<u32> = MessagePacket::Message(MessagePacketMessage::new(key, 1u32));
    match parent.forward(packet, ItemWrap) {
        MessagePacket::Message(m) => assert!(matches!(m.message, Message::<u32>::Item(9, 1))),
        _ => panic!("a ready message stays ready"),
    }
}

#[test]
fn items_read_their_state_by_the_index_at_the_vector_depth() {
    let items = vec![10u32, 20, 30];
    let transient = Transient::default().alt(depth(0), 1).alt(depth(1), 2);
    assert_eq!(lookup_item_at(Some(&items), &transient, depth(0)), Some(&20));
    assert_eq!(lookup_item_at(Some(&items), &transient, depth(1)), Some(&30));
    let far = Transient::default().alt(depth(1), 3);
    assert_eq!(lookup_item_at(Some(&items), &far, depth(1)), None);
    assert_eq!(lookup_item_at::<u32>(None, &transient, depth(0)), None);
}

#[test]
fn a_length_is_emitted_through_the_length_child_and_forwarded() {
    let emitter = Emitter::new::<u32>(Callback::new(consist(50, 0)));
    let node = Node::new(&emitter, CallbackMode::Process, Transient::default());
    let len = node.emit_len(4);
    assert_eq!(len.mode, CallbackMode::Process);
    assert_eq!(len.packet.key.consist(), consist(53, 1));
    assert_eq!(len.packet.message, 4);
    assert!(matches!(route(&len.packet.key, &node.key()), VecRoute::Len(_)));
    let packet: Plain<u32> = MessagePacket::Message(len.packet);
    match emitter.forward_len::<u32, _, _>(packet) {
        MessagePacket::Message(m) => assert_eq!(apply(m.message, vec![1, 2]), vec![1, 2, 0, 0]),
        _ => panic!("a ready message stays ready"),
    }
}
