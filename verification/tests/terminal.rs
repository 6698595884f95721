use frand_node::packet::{AltDepth, Consist, Id, Key, Packet, Payload, Transient};
use frand_node::terminal::{from_packet, read_packet, to_packet, Terminal};
use frand_node::message::Message;

fn key() -> Key {
    Key::new(Consist::new(Id::default().add(3), AltDepth::default()), Transient::default())
}

fn round_trip<T: Terminal + PartialEq + std::fmt::Debug + Copy>(value: T) {
    let packet = to_packet(&value, key());
    assert_eq!(packet.key(), key());
    let back: T = from_packet(&packet, Key::default(), 0).unwrap();
    assert_eq!(back, value);
    assert_eq!(read_packet::<T>(&packet, Key::default(), 0), Some(value));
    assert_eq!(packet.payload().to_state::<T>(), value);
}

#[test]
fn every_terminal_reads_back_what_it_wrote() {
    round_trip(-5i8);
    round_trip(i16::MIN);
    round_trip(123456i32);
    round_trip(i64::MAX);
    round_trip(i128::MIN);
    round_trip(200u8);
    round_trip(u16::MAX);
    round_trip(0u32);
    round_trip(u64::MAX);
    round_trip(u128::MAX);
    round_trip('한');
    round_trip(true);
    round_trip(false);
    round_trip(());
}

#[test]
fn terminal_payloads_are_cbor() {
    assert_eq!(Payload::from_state(&5u32).bytes(), Some(&vec![0x05u8]));
    assert_eq!(Payload::from_state(&500u32).bytes(), Some(&vec![0x19u8, 0x01, 0xf4]));
    assert_eq!(Payload::from_state(&24u8).bytes(), Some(&vec![0x18u8, 0x18]));
    assert_eq!(Payload::from_state(&-1i8).bytes(), Some(&vec![0x20u8]));
    assert_eq!(Payload::from_state(&-500i64).bytes(), Some(&vec![0x39u8, 0x01, 0xf3]));
    assert_eq!(Payload::from_state(&true).bytes(), Some(&vec![0xf5u8]));
    assert_eq!(Payload::from_state(&false).bytes(), Some(&vec![0xf4u8]));
    assert_eq!(Payload::from_state(&()).bytes(), Some(&vec![0xf6u8]));
    assert_eq!(Payload::from_state(&'a').bytes(), Some(&vec![0x61u8, 0x61]));
    assert_eq!(
        Payload::from_state(&(u64::MAX as u128 + 1)).bytes(),
        Some(&vec![0xc2u8, 0x49, 0x01, 0, 0, 0, 0, 0, 0, 0, 0]),
    );
}

#[test]
fn terminal_payloads_follow_cbor_heads_at_every_width() {
    let bytes = |p: frand_node::packet::Payload| p.bytes().unwrap().clone();
    assert_eq!(bytes(Payload::from_state(&23u8)), vec![0x17]);
    assert_eq!(bytes(Payload::from_state(&255u16)), vec![0x18, 0xff]);
    assert_eq!(bytes(Payload::from_state(&256u16)), vec![0x19, 0x01, 0x00]);
    assert_eq!(bytes(Payload::from_state(&65536u32)), vec![0x1a, 0x00, 0x01, 0x00, 0x00]);
    assert_eq!(bytes(Payload::from_state(&(1u64 << 32))), vec![0x1b, 0, 0, 0, 1, 0, 0, 0, 0]);
    assert_eq!(bytes(Payload::from_state(&u64::MAX)), vec![0x1b, 0xff, 0xff, 0xff, 0xff, 0xff, 0xff, 0xff, 0xff]);
    assert_eq!(bytes(Payload::from_state(&-24i8)), vec![0x37]);
    assert_eq!(bytes(Payload::from_state(&-25i16)), vec![0x38, 0x18]);
    assert_eq!(bytes(Payload::from_state(&i32::MIN)), vec![0x3a, 0x7f, 0xff, 0xff, 0xff]);
    assert_eq!(bytes(Payload::from_state(&5u128)), vec![0x05]);
    assert_eq!(bytes(Payload::from_state(&-5i128)), vec![0x24]);
    assert_eq!(
        bytes(Payload::from_state(&(-(1i128 << 64) - 1))),
        vec![0xc3, 0x49, 0x01, 0, 0, 0, 0, 0, 0, 0, 0],
    );
    assert_eq!(bytes(Payload::from_state(&'é')), vec![0x62, 0xc3, 0xa9]);
    assert_eq!(bytes(Payload::from_state(&'한')), vec![0x63, 0xed, 0x95, 0x9c]);
    assert_eq!(bytes(Payload::from_state(&'😀')), vec![0x64, 0xf0, 0x9f, 0x98, 0x80]);
}

#[test]
fn terminal_decodes_known_cbor() {
    assert_eq!(u32::decode(&[0x19, 0x01, 0xf4]), Some(500u32));
    assert_eq!(i64::decode(&[0x39, 0x01, 0xf3]), Some(-500i64));
    assert_eq!(bool::decode(&[0xf5]), Some(true));
    assert_eq!(char::decode(&[0x61, 0x62]), Some('b'));
    assert_eq!(<()>::decode(&[0xf6]), Some(()));
}

#[test]
fn payloads_of_another_type_are_not_read() {
    let text = Payload::from_state(&'x');
    assert_eq!(text.try_to_state::<u32>(), None);
    let negative = Payload::from_state(&-3i32);
    assert_eq!(negative.try_to_state::<u8>(), None);
    let large = Payload::from_state(&300u16);
    assert_eq!(large.try_to_state::<u8>(), None);
    assert_eq!(large.try_to_state::<u16>(), Some(300));
    assert_eq!(Payload::default().try_to_state::<bool>(), None);
    let empty = Packet::new(key(), Payload::default());
    assert_eq!(read_packet::<u64>(&empty, Key::default(), 0), None);
    let garbage = Packet::new(key(), Payload::new(vec![0xff, 0x00]));
    assert_eq!(read_packet::<u64>(&garbage, Key::default(), 0), None);
}

#[test]
fn terminal_messages_replace_the_state() {
    let mut state = 7u64;
    42u64.apply_to(&mut state);
    assert_eq!(state, 42);
    let mut flag = true;
    false.apply_to(&mut flag);
    assert!(!flag);
    assert_eq!(<i32 as Message>::default_state(), 0);
    assert_eq!(<char as Message>::default_state(), '\0');
    assert_eq!(<u8 as Message>::node_alt_size(), 0);
    assert_eq!(<u16 as Message>::into_message(9), 9);
    assert_eq!(<i128 as Message>::clone_state(&-4), -4);
}
