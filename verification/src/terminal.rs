//! Terminal states: primitive values that are their own message and replace the state
//! wholesale. Their payloads are CBOR, written and read by `ciborium`.

use vstd::prelude::*;
use crate::message::Message;
use crate::packet::{AltSize, Key, Packet, Payload};
use crate::result::PacketError;

verus! {

/// A primitive state that is its own message and has a CBOR encoding.
pub trait Terminal: Message<State = Self> {
    /// The CBOR bytes of `value`.
    spec fn spec_encode(value: Self) -> Seq<u8>;

    /// The value that CBOR `bytes` hold, if they hold one of this type.
    spec fn spec_decode(bytes: Seq<u8>) -> Option<Self>;

    /// The CBOR bytes of this value; reading them back gives this value.
    fn encode(&self) -> (r: Vec<u8>)
        ensures
            r@ == Self::spec_encode(*self),
            Self::spec_decode(r@) == Some(*self),
    ;

    /// The value that CBOR `bytes` hold, if they hold one of this type.
    fn decode(bytes: &[u8]) -> (r: Option<Self>)
        ensures
            r == Self::spec_decode(bytes@),
    ;
}

/// Whether `payload` carries the CBOR encoding of some value of type `T`.
pub open spec fn payload_holds<T: Terminal>(payload: Option<Seq<u8>>) -> bool {
    match payload {
        Some(bytes) => T::spec_decode(bytes) is Some,
        None => false,
    }
}

/// The value of type `T` that `payload` carries, when `payload_holds::<T>(payload)`.
pub open spec fn payload_value<T: Terminal>(payload: Option<Seq<u8>>) -> T
    recommends
        payload_holds::<T>(payload),
{
    T::spec_decode(payload->0)->0
}

impl Payload {
    /// The payload that carries `state`.
    pub fn from_state<T: Terminal>(state: &T) -> (r: Payload)
        ensures
            r@ == Some(T::spec_encode(*state)),
            payload_holds::<T>(r@),
            payload_value::<T>(r@) == *state,
    {
        Payload::new(state.encode())
    }

    /// The state this payload carries, if it carries one of type `T`.
    pub fn try_to_state<T: Terminal>(&self) -> (r: Option<T>)
        ensures
            payload_holds::<T>(self@) ==> r == Some(payload_value::<T>(self@)),
            !payload_holds::<T>(self@) ==> r is None,
    {
        match self.bytes() {
            Some(bytes) => T::decode(bytes.as_slice()),
            None => None,
        }
    }

    /// The state this payload carries.
    pub fn to_state<T: Terminal>(&self) -> (r: T)
        requires
            payload_holds::<T>(self@),
        ensures
            r == payload_value::<T>(self@),
    {
        self.try_to_state::<T>().unwrap()
    }
}

/// Reads a terminal message from the payload of `packet`; a terminal has no children, so the
/// parent key and the depth do not enter.
pub fn from_packet<T: Terminal>(packet: &Packet, parent_key: Key, depth: usize) -> (r: Result<T, PacketError>)
    requires
        payload_holds::<T>(packet@.1),
    ensures
        r == Ok::<T, PacketError>(payload_value::<T>(packet@.1)),
{
    Ok(packet.payload().to_state::<T>())
}

/// `n` bytes of `value`, most significant first.
pub open spec fn be_bytes(value: nat, n: nat) -> Seq<u8>
    decreases n,
{
    if n == 0 {
        Seq::empty()
    } else {
        be_bytes(value / 256, (n - 1) as nat).push((value % 256) as u8)
    }
}

/// The bytes of `value`, most significant first, without leading zeros.
pub open spec fn be_bytes_min(value: nat) -> Seq<u8>
    decreases value,
{
    if value == 0 {
        Seq::empty()
    } else {
        be_bytes_min(value / 256).push((value % 256) as u8)
    }
}

/// The head of a CBOR item of major type `major` whose argument is `arg` (below 2^64), in
/// its shortest form: the argument in the first byte below 24, else in 1, 2, 4 or 8 bytes.
pub open spec fn cbor_head(major: nat, arg: nat) -> Seq<u8> {
    if arg < 24 {
        seq![(major * 32 + arg) as u8]
    } else if arg < 0x100 {
        seq![(major * 32 + 24) as u8] + be_bytes(arg, 1)
    } else if arg < 0x1_0000 {
        seq![(major * 32 + 25) as u8] + be_bytes(arg, 2)
    } else if arg < 0x1_0000_0000 {
        seq![(major * 32 + 26) as u8] + be_bytes(arg, 4)
    } else {
        seq![(major * 32 + 27) as u8] + be_bytes(arg, 8)
    }
}

/// The CBOR of an integer that fits 64 bits: major type 0 with the value, or major type 1
/// with -1 - value for a negative one.
pub open spec fn cbor_int(value: int) -> Seq<u8> {
    if value >= 0 {
        cbor_head(0, value as nat)
    } else {
        cbor_head(1, (-1 - value) as nat)
    }
}

/// The CBOR of a 128-bit integer: as `cbor_int` when the value, or -1 - value for a negative
/// one, fits 64 bits; else tag 2 (or 3 for a negative value) on a byte string of that number
/// without leading zero bytes.
pub open spec fn cbor_big_int(value: int) -> Seq<u8> {
    let raw: nat = if value >= 0 { value as nat } else { (-1 - value) as nat };
    let tag: nat = if value >= 0 { 2 } else { 3 };
    if raw < 0x1_0000_0000_0000_0000 {
        cbor_int(value)
    } else {
        cbor_head(6, tag) + cbor_head(2, be_bytes_min(raw).len()) + be_bytes_min(raw)
    }
}

/// The UTF-8 bytes of a character.
pub open spec fn utf8(c: char) -> Seq<u8> {
    let cp = c as nat;
    if cp < 0x80 {
        seq![cp as u8]
    } else if cp < 0x800 {
        seq![(0xC0 + cp / 64) as u8, (0x80 + cp % 64) as u8]
    } else if cp < 0x1_0000 {
        seq![(0xE0 + cp / 4096) as u8, (0x80 + (cp / 64) % 64) as u8, (0x80 + cp % 64) as u8]
    } else {
        seq![
            (0xF0 + cp / 262144) as u8,
            (0x80 + (cp / 4096) % 64) as u8,
            (0x80 + (cp / 64) % 64) as u8,
            (0x80 + cp % 64) as u8,
        ]
    }
}

/// The CBOR of a character: a text string (major type 3) of its UTF-8 bytes.
pub open spec fn cbor_char(c: char) -> Seq<u8> {
    cbor_head(3, utf8(c).len()) + utf8(c)
}

/// The CBOR of a boolean: the simple value `false` (0xf4) or `true` (0xf5).
pub open spec fn cbor_bool(b: bool) -> Seq<u8> {
    if b {
        seq![0xf5u8]
    } else {
        seq![0xf4u8]
    }
}

/// Reads a terminal message from the payload of `packet`, if it carries one.
pub fn read_packet<T: Terminal>(packet: &Packet, parent_key: Key, depth: usize) -> (r: Option<T>)
    ensures
        payload_holds::<T>(packet@.1) ==> r == Some(payload_value::<T>(packet@.1)),
        !payload_holds::<T>(packet@.1) ==> r is None,
{
    match packet.payload().try_to_state::<T>() {
        Some(_) => match from_packet::<T>(packet, parent_key, depth) {
            Ok(value) => Some(value),
            Err(_) => None,
        },
        None => None,
    }
}

/// The packet that carries terminal `message` to `key`; reading it back gives `message`.
pub fn to_packet<T: Terminal>(message: &T, key: Key) -> (r: Packet)
    ensures
        r@.0 == key@,
        r@.1 == Some(T::spec_encode(*message)),
        payload_holds::<T>(r@.1),
        payload_value::<T>(r@.1) == *message,
{
    Packet::new(key, Payload::from_state(message))
}

/// The `i8` that `ciborium` reads from CBOR bytes, if they hold one.
pub uninterp spec fn cbor_decode_i8(bytes: Seq<u8>) -> Option<i8>;

/// Calls `ciborium::into_writer` on a `i8` with a `Vec<u8>` as the writer. Claimed: the
/// bytes are an integer head of major type 0, or of major type 1 with -1 - value (`cbor_int`), and `ciborium::from_reader` reads the same value back from them.
/// Writing to a `Vec<u8>` cannot fail, so the result of the call is not inspected.
#[verifier::external_body]
fn write_cbor_i8(value: i8) -> (r: Vec<u8>)
    ensures
        r@ == cbor_int(value as int),
        cbor_decode_i8(r@) == Some(value),
{
    let mut buffer: Vec<u8> = Vec::new();
    let _ = ciborium::into_writer(&value, &mut buffer);
    buffer
}

/// Calls `ciborium::from_reader` for a `i8` on `bytes`. Claimed: the result is the named
/// decoding of the bytes; an error of the call becomes `None`.
#[verifier::external_body]
fn read_cbor_i8(bytes: &[u8]) -> (r: Option<i8>)
    ensures
        r == cbor_decode_i8(bytes@),
{
    ciborium::from_reader::<i8, &[u8]>(bytes).ok()
}

impl Message for i8 {
    type State = i8;

    open spec fn spec_apply(&self, state: i8) -> i8 {
        *self
    }

    open spec fn spec_default_state() -> i8 {
        0i8
    }

    open spec fn spec_node_alt_size() -> AltSize {
        0
    }

    fn apply_to(&self, state: &mut i8) {
        *state = *self;
    }

    fn default_state() -> (r: i8) {
        0i8
    }

    fn clone_state(state: &i8) -> (r: i8) {
        *state
    }

    fn node_alt_size() -> (r: AltSize) {
        0
    }

    fn into_message(state: i8) -> (r: i8)
        ensures
            r == state,
    {
        state
    }
}

impl Terminal for i8 {
    open spec fn spec_encode(value: i8) -> Seq<u8> {
        cbor_int(value as int)
    }

    open spec fn spec_decode(bytes: Seq<u8>) -> Option<i8> {
        cbor_decode_i8(bytes)
    }

    fn encode(&self) -> (r: Vec<u8>) {
        write_cbor_i8(*self)
    }

    fn decode(bytes: &[u8]) -> (r: Option<i8>) {
        read_cbor_i8(bytes)
    }
}

/// The `i16` that `ciborium` reads from CBOR bytes, if they hold one.
pub uninterp spec fn cbor_decode_i16(bytes: Seq<u8>) -> Option<i16>;

/// Calls `ciborium::into_writer` on a `i16` with a `Vec<u8>` as the writer. Claimed: the
/// bytes are an integer head of major type 0, or of major type 1 with -1 - value (`cbor_int`), and `ciborium::from_reader` reads the same value back from them.
/// Writing to a `Vec<u8>` cannot fail, so the result of the call is not inspected.
#[verifier::external_body]
fn write_cbor_i16(value: i16) -> (r: Vec<u8>)
    ensures
        r@ == cbor_int(value as int),
        cbor_decode_i16(r@) == Some(value),
{
    let mut buffer: Vec<u8> = Vec::new();
    let _ = ciborium::into_writer(&value, &mut buffer);
    buffer
}

/// Calls `ciborium::from_reader` for a `i16` on `bytes`. Claimed: the result is the named
/// decoding of the bytes; an error of the call becomes `None`.
#[verifier::external_body]
fn read_cbor_i16(bytes: &[u8]) -> (r: Option<i16>)
    ensures
        r == cbor_decode_i16(bytes@),
{
    ciborium::from_reader::<i16, &[u8]>(bytes).ok()
}

impl Message for i16 {
    type State = i16;

    open spec fn spec_apply(&self, state: i16) -> i16 {
        *self
    }

    open spec fn spec_default_state() -> i16 {
        0i16
    }

    open spec fn spec_node_alt_size() -> AltSize {
        0
    }

    fn apply_to(&self, state: &mut i16) {
        *state = *self;
    }

    fn default_state() -> (r: i16) {
        0i16
    }

    fn clone_state(state: &i16) -> (r: i16) {
        *state
    }

    fn node_alt_size() -> (r: AltSize) {
        0
    }

    fn into_message(state: i16) -> (r: i16)
        ensures
            r == state,
    {
        state
    }
}

impl Terminal for i16 {
    open spec fn spec_encode(value: i16) -> Seq<u8> {
        cbor_int(value as int)
    }

    open spec fn spec_decode(bytes: Seq<u8>) -> Option<i16> {
        cbor_decode_i16(bytes)
    }

    fn encode(&self) -> (r: Vec<u8>) {
        write_cbor_i16(*self)
    }

    fn decode(bytes: &[u8]) -> (r: Option<i16>) {
        read_cbor_i16(bytes)
    }
}

/// The `i32` that `ciborium` reads from CBOR bytes, if they hold one.
pub uninterp spec fn cbor_decode_i32(bytes: Seq<u8>) -> Option<i32>;

/// Calls `ciborium::into_writer` on a `i32` with a `Vec<u8>` as the writer. Claimed: the
/// bytes are an integer head of major type 0, or of major type 1 with -1 - value (`cbor_int`), and `ciborium::from_reader` reads the same value back from them.
/// Writing to a `Vec<u8>` cannot fail, so the result of the call is not inspected.
#[verifier::external_body]
fn write_cbor_i32(value: i32) -> (r: Vec<u8>)
    ensures
        r@ == cbor_int(value as int),
        cbor_decode_i32(r@) == Some(value),
{
    let mut buffer: Vec<u8> = Vec::new();
    let _ = ciborium::into_writer(&value, &mut buffer);
    buffer
}

/// Calls `ciborium::from_reader` for a `i32` on `bytes`. Claimed: the result is the named
/// decoding of the bytes; an error of the call becomes `None`.
#[verifier::external_body]
fn read_cbor_i32(bytes: &[u8]) -> (r: Option<i32>)
    ensures
        r == cbor_decode_i32(bytes@),
{
    ciborium::from_reader::<i32, &[u8]>(bytes).ok()
}

impl Message for i32 {
    type State = i32;

    open spec fn spec_apply(&self, state: i32) -> i32 {
        *self
    }

    open spec fn spec_default_state() -> i32 {
        0i32
    }

    open spec fn spec_node_alt_size() -> AltSize {
        0
    }

    fn apply_to(&self, state: &mut i32) {
        *state = *self;
    }

    fn default_state() -> (r: i32) {
        0i32
    }

    fn clone_state(state: &i32) -> (r: i32) {
        *state
    }

    fn node_alt_size() -> (r: AltSize) {
        0
    }

    fn into_message(state: i32) -> (r: i32)
        ensures
            r == state,
    {
        state
    }
}

impl Terminal for i32 {
    open spec fn spec_encode(value: i32) -> Seq<u8> {
        cbor_int(value as int)
    }

    open spec fn spec_decode(bytes: Seq<u8>) -> Option<i32> {
        cbor_decode_i32(bytes)
    }

    fn encode(&self) -> (r: Vec<u8>) {
        write_cbor_i32(*self)
    }

    fn decode(bytes: &[u8]) -> (r: Option<i32>) {
        read_cbor_i32(bytes)
    }
}

/// The `i64` that `ciborium` reads from CBOR bytes, if they hold one.
pub uninterp spec fn cbor_decode_i64(bytes: Seq<u8>) -> Option<i64>;

/// Calls `ciborium::into_writer` on a `i64` with a `Vec<u8>` as the writer. Claimed: the
/// bytes are an integer head of major type 0, or of major type 1 with -1 - value (`cbor_int`), and `ciborium::from_reader` reads the same value back from them.
/// Writing to a `Vec<u8>` cannot fail, so the result of the call is not inspected.
#[verifier::external_body]
fn write_cbor_i64(value: i64) -> (r: Vec<u8>)
    ensures
        r@ == cbor_int(value as int),
        cbor_decode_i64(r@) == Some(value),
{
    let mut buffer: Vec<u8> = Vec::new();
    let _ = ciborium::into_writer(&value, &mut buffer);
    buffer
}

/// Calls `ciborium::from_reader` for a `i64` on `bytes`. Claimed: the result is the named
/// decoding of the bytes; an error of the call becomes `None`.
#[verifier::external_body]
fn read_cbor_i64(bytes: &[u8]) -> (r: Option<i64>)
    ensures
        r == cbor_decode_i64(bytes@),
{
    ciborium::from_reader::<i64, &[u8]>(bytes).ok()
}

impl Message for i64 {
    type State = i64;

    open spec fn spec_apply(&self, state: i64) -> i64 {
        *self
    }

    open spec fn spec_default_state() -> i64 {
        0i64
    }

    open spec fn spec_node_alt_size() -> AltSize {
        0
    }

    fn apply_to(&self, state: &mut i64) {
        *state = *self;
    }

    fn default_state() -> (r: i64) {
        0i64
    }

    fn clone_state(state: &i64) -> (r: i64) {
        *state
    }

    fn node_alt_size() -> (r: AltSize) {
        0
    }

    fn into_message(state: i64) -> (r: i64)
        ensures
            r == state,
    {
        state
    }
}

impl Terminal for i64 {
    open spec fn spec_encode(value: i64) -> Seq<u8> {
        cbor_int(value as int)
    }

    open spec fn spec_decode(bytes: Seq<u8>) -> Option<i64> {
        cbor_decode_i64(bytes)
    }

    fn encode(&self) -> (r: Vec<u8>) {
        write_cbor_i64(*self)
    }

    fn decode(bytes: &[u8]) -> (r: Option<i64>) {
        read_cbor_i64(bytes)
    }
}

/// The `i128` that `ciborium` reads from CBOR bytes, if they hold one.
pub uninterp spec fn cbor_decode_i128(bytes: Seq<u8>) -> Option<i128>;

/// Calls `ciborium::into_writer` on a `i128` with a `Vec<u8>` as the writer. Claimed: the
/// bytes are an integer head when the value or -1 - value fits 64 bits, else a big-integer tag with the value's bytes (`cbor_big_int`), and `ciborium::from_reader` reads the same value back from them.
/// Writing to a `Vec<u8>` cannot fail, so the result of the call is not inspected.
#[verifier::external_body]
fn write_cbor_i128(value: i128) -> (r: Vec<u8>)
    ensures
        r@ == cbor_big_int(value as int),
        cbor_decode_i128(r@) == Some(value),
{
    let mut buffer: Vec<u8> = Vec::new();
    let _ = ciborium::into_writer(&value, &mut buffer);
    buffer
}

/// Calls `ciborium::from_reader` for a `i128` on `bytes`. Claimed: the result is the named
/// decoding of the bytes; an error of the call becomes `None`.
#[verifier::external_body]
fn read_cbor_i128(bytes: &[u8]) -> (r: Option<i128>)
    ensures
        r == cbor_decode_i128(bytes@),
{
    ciborium::from_reader::<i128, &[u8]>(bytes).ok()
}

impl Message for i128 {
    type State = i128;

    open spec fn spec_apply(&self, state: i128) -> i128 {
        *self
    }

    open spec fn spec_default_state() -> i128 {
        0i128
    }

    open spec fn spec_node_alt_size() -> AltSize {
        0
    }

    fn apply_to(&self, state: &mut i128) {
        *state = *self;
    }

    fn default_state() -> (r: i128) {
        0i128
    }

    fn clone_state(state: &i128) -> (r: i128) {
        *state
    }

    fn node_alt_size() -> (r: AltSize) {
        0
    }

    fn into_message(state: i128) -> (r: i128)
        ensures
            r == state,
    {
        state
    }
}

impl Terminal for i128 {
    open spec fn spec_encode(value: i128) -> Seq<u8> {
        cbor_big_int(value as int)
    }

    open spec fn spec_decode(bytes: Seq<u8>) -> Option<i128> {
        cbor_decode_i128(bytes)
    }

    fn encode(&self) -> (r: Vec<u8>) {
        write_cbor_i128(*self)
    }

    fn decode(bytes: &[u8]) -> (r: Option<i128>) {
        read_cbor_i128(bytes)
    }
}

/// The `u8` that `ciborium` reads from CBOR bytes, if they hold one.
pub uninterp spec fn cbor_decode_u8(bytes: Seq<u8>) -> Option<u8>;

/// Calls `ciborium::into_writer` on a `u8` with a `Vec<u8>` as the writer. Claimed: the
/// bytes are an integer head of major type 0, or of major type 1 with -1 - value (`cbor_int`), and `ciborium::from_reader` reads the same value back from them.
/// Writing to a `Vec<u8>` cannot fail, so the result of the call is not inspected.
#[verifier::external_body]
fn write_cbor_u8(value: u8) -> (r: Vec<u8>)
    ensures
        r@ == cbor_int(value as int),
        cbor_decode_u8(r@) == Some(value),
{
    let mut buffer: Vec<u8> = Vec::new();
    let _ = ciborium::into_writer(&value, &mut buffer);
    buffer
}

/// Calls `ciborium::from_reader` for a `u8` on `bytes`. Claimed: the result is the named
/// decoding of the bytes; an error of the call becomes `None`.
#[verifier::external_body]
fn read_cbor_u8(bytes: &[u8]) -> (r: Option<u8>)
    ensures
        r == cbor_decode_u8(bytes@),
{
    ciborium::from_reader::<u8, &[u8]>(bytes).ok()
}

impl Message for u8 {
    type State = u8;

    open spec fn spec_apply(&self, state: u8) -> u8 {
        *self
    }

    open spec fn spec_default_state() -> u8 {
        0u8
    }

    open spec fn spec_node_alt_size() -> AltSize {
        0
    }

    fn apply_to(&self, state: &mut u8) {
        *state = *self;
    }

    fn default_state() -> (r: u8) {
        0u8
    }

    fn clone_state(state: &u8) -> (r: u8) {
        *state
    }

    fn node_alt_size() -> (r: AltSize) {
        0
    }

    fn into_message(state: u8) -> (r: u8)
        ensures
            r == state,
    {
        state
    }
}

impl Terminal for u8 {
    open spec fn spec_encode(value: u8) -> Seq<u8> {
        cbor_int(value as int)
    }

    open spec fn spec_decode(bytes: Seq<u8>) -> Option<u8> {
        cbor_decode_u8(bytes)
    }

    fn encode(&self) -> (r: Vec<u8>) {
        write_cbor_u8(*self)
    }

    fn decode(bytes: &[u8]) -> (r: Option<u8>) {
        read_cbor_u8(bytes)
    }
}

/// The `u16` that `ciborium` reads from CBOR bytes, if they hold one.
pub uninterp spec fn cbor_decode_u16(bytes: Seq<u8>) -> Option<u16>;

/// Calls `ciborium::into_writer` on a `u16` with a `Vec<u8>` as the writer. Claimed: the
/// bytes are an integer head of major type 0, or of major type 1 with -1 - value (`cbor_int`), and `ciborium::from_reader` reads the same value back from them.
/// Writing to a `Vec<u8>` cannot fail, so the result of the call is not inspected.
#[verifier::external_body]
fn write_cbor_u16(value: u16) -> (r: Vec<u8>)
    ensures
        r@ == cbor_int(value as int),
        cbor_decode_u16(r@) == Some(value),
{
    let mut buffer: Vec<u8> = Vec::new();
    let _ = ciborium::into_writer(&value, &mut buffer);
    buffer
}

/// Calls `ciborium::from_reader` for a `u16` on `bytes`. Claimed: the result is the named
/// decoding of the bytes; an error of the call becomes `None`.
#[verifier::external_body]
fn read_cbor_u16(bytes: &[u8]) -> (r: Option<u16>)
    ensures
        r == cbor_decode_u16(bytes@),
{
    ciborium::from_reader::<u16, &[u8]>(bytes).ok()
}

impl Message for u16 {
    type State = u16;

    open spec fn spec_apply(&self, state: u16) -> u16 {
        *self
    }

    open spec fn spec_default_state() -> u16 {
        0u16
    }

    open spec fn spec_node_alt_size() -> AltSize {
        0
    }

    fn apply_to(&self, state: &mut u16) {
        *state = *self;
    }

    fn default_state() -> (r: u16) {
        0u16
    }

    fn clone_state(state: &u16) -> (r: u16) {
        *state
    }

    fn node_alt_size() -> (r: AltSize) {
        0
    }

    fn into_message(state: u16) -> (r: u16)
        ensures
            r == state,
    {
        state
    }
}

impl Terminal for u16 {
    open spec fn spec_encode(value: u16) -> Seq<u8> {
        cbor_int(value as int)
    }

    open spec fn spec_decode(bytes: Seq<u8>) -> Option<u16> {
        cbor_decode_u16(bytes)
    }

    fn encode(&self) -> (r: Vec<u8>) {
        write_cbor_u16(*self)
    }

    fn decode(bytes: &[u8]) -> (r: Option<u16>) {
        read_cbor_u16(bytes)
    }
}

/// The `u32` that `ciborium` reads from CBOR bytes, if they hold one.
pub uninterp spec fn cbor_decode_u32(bytes: Seq<u8>) -> Option<u32>;

/// Calls `ciborium::into_writer` on a `u32` with a `Vec<u8>` as the writer. Claimed: the
/// bytes are an integer head of major type 0, or of major type 1 with -1 - value (`cbor_int`), and `ciborium::from_reader` reads the same value back from them.
/// Writing to a `Vec<u8>` cannot fail, so the result of the call is not inspected.
#[verifier::external_body]
fn write_cbor_u32(value: u32) -> (r: Vec<u8>)
    ensures
        r@ == cbor_int(value as int),
        cbor_decode_u32(r@) == Some(value),
{
    let mut buffer: Vec<u8> = Vec::new();
    let _ = ciborium::into_writer(&value, &mut buffer);
    buffer
}

/// Calls `ciborium::from_reader` for a `u32` on `bytes`. Claimed: the result is the named
/// decoding of the bytes; an error of the call becomes `None`.
#[verifier::external_body]
fn read_cbor_u32(bytes: &[u8]) -> (r: Option<u32>)
    ensures
        r == cbor_decode_u32(bytes@),
{
    ciborium::from_reader::<u32, &[u8]>(bytes).ok()
}

impl Message for u32 {
    type State = u32;

    open spec fn spec_apply(&self, state: u32) -> u32 {
        *self
    }

    open spec fn spec_default_state() -> u32 {
        0u32
    }

    open spec fn spec_node_alt_size() -> AltSize {
        0
    }

    fn apply_to(&self, state: &mut u32) {
        *state = *self;
    }

    fn default_state() -> (r: u32) {
        0u32
    }

    fn clone_state(state: &u32) -> (r: u32) {
        *state
    }

    fn node_alt_size() -> (r: AltSize) {
        0
    }

    fn into_message(state: u32) -> (r: u32)
        ensures
            r == state,
    {
        state
    }
}

impl Terminal for u32 {
    open spec fn spec_encode(value: u32) -> Seq<u8> {
        cbor_int(value as int)
    }

    open spec fn spec_decode(bytes: Seq<u8>) -> Option<u32> {
        cbor_decode_u32(bytes)
    }

    fn encode(&self) -> (r: Vec<u8>) {
        write_cbor_u32(*self)
    }

    fn decode(bytes: &[u8]) -> (r: Option<u32>) {
        read_cbor_u32(bytes)
    }
}

/// The `u64` that `ciborium` reads from CBOR bytes, if they hold one.
pub uninterp spec fn cbor_decode_u64(bytes: Seq<u8>) -> Option<u64>;

/// Calls `ciborium::into_writer` on a `u64` with a `Vec<u8>` as the writer. Claimed: the
/// bytes are an integer head of major type 0, or of major type 1 with -1 - value (`cbor_int`), and `ciborium::from_reader` reads the same value back from them.
/// Writing to a `Vec<u8>` cannot fail, so the result of the call is not inspected.
#[verifier::external_body]
fn write_cbor_u64(value: u64) -> (r: Vec<u8>)
    ensures
        r@ == cbor_int(value as int),
        cbor_decode_u64(r@) == Some(value),
{
    let mut buffer: Vec<u8> = Vec::new();
    let _ = ciborium::into_writer(&value, &mut buffer);
    buffer
}

/// Calls `ciborium::from_reader` for a `u64` on `bytes`. Claimed: the result is the named
/// decoding of the bytes; an error of the call becomes `None`.
#[verifier::external_body]
fn read_cbor_u64(bytes: &[u8]) -> (r: Option<u64>)
    ensures
        r == cbor_decode_u64(bytes@),
{
    ciborium::from_reader::<u64, &[u8]>(bytes).ok()
}

impl Message for u64 {
    type State = u64;

    open spec fn spec_apply(&self, state: u64) -> u64 {
        *self
    }

    open spec fn spec_default_state() -> u64 {
        0u64
    }

    open spec fn spec_node_alt_size() -> AltSize {
        0
    }

    fn apply_to(&self, state: &mut u64) {
        *state = *self;
    }

    fn default_state() -> (r: u64) {
        0u64
    }

    fn clone_state(state: &u64) -> (r: u64) {
        *state
    }

    fn node_alt_size() -> (r: AltSize) {
        0
    }

    fn into_message(state: u64) -> (r: u64)
        ensures
            r == state,
    {
        state
    }
}

impl Terminal for u64 {
    open spec fn spec_encode(value: u64) -> Seq<u8> {
        cbor_int(value as int)
    }

    open spec fn spec_decode(bytes: Seq<u8>) -> Option<u64> {
        cbor_decode_u64(bytes)
    }

    fn encode(&self) -> (r: Vec<u8>) {
        write_cbor_u64(*self)
    }

    fn decode(bytes: &[u8]) -> (r: Option<u64>) {
        read_cbor_u64(bytes)
    }
}

/// The `u128` that `ciborium` reads from CBOR bytes, if they hold one.
pub uninterp spec fn cbor_decode_u128(bytes: Seq<u8>) -> Option<u128>;

/// Calls `ciborium::into_writer` on a `u128` with a `Vec<u8>` as the writer. Claimed: the
/// bytes are an integer head when the value or -1 - value fits 64 bits, else a big-integer tag with the value's bytes (`cbor_big_int`), and `ciborium::from_reader` reads the same value back from them.
/// Writing to a `Vec<u8>` cannot fail, so the result of the call is not inspected.
#[verifier::external_body]
fn write_cbor_u128(value: u128) -> (r: Vec<u8>)
    ensures
        r@ == cbor_big_int(value as int),
        cbor_decode_u128(r@) == Some(value),
{
    let mut buffer: Vec<u8> = Vec::new();
    let _ = ciborium::into_writer(&value, &mut buffer);
    buffer
}

/// Calls `ciborium::from_reader` for a `u128` on `bytes`. Claimed: the result is the named
/// decoding of the bytes; an error of the call becomes `None`.
#[verifier::external_body]
fn read_cbor_u128(bytes: &[u8]) -> (r: Option<u128>)
    ensures
        r == cbor_decode_u128(bytes@),
{
    ciborium::from_reader::<u128, &[u8]>(bytes).ok()
}

impl Message for u128 {
    type State = u128;

    open spec fn spec_apply(&self, state: u128) -> u128 {
        *self
    }

    open spec fn spec_default_state() -> u128 {
        0u128
    }

    open spec fn spec_node_alt_size() -> AltSize {
        0
    }

    fn apply_to(&self, state: &mut u128) {
        *state = *self;
    }

    fn default_state() -> (r: u128) {
        0u128
    }

    fn clone_state(state: &u128) -> (r: u128) {
        *state
    }

    fn node_alt_size() -> (r: AltSize) {
        0
    }

    fn into_message(state: u128) -> (r: u128)
        ensures
            r == state,
    {
        state
    }
}

impl Terminal for u128 {
    open spec fn spec_encode(value: u128) -> Seq<u8> {
        cbor_big_int(value as int)
    }

    open spec fn spec_decode(bytes: Seq<u8>) -> Option<u128> {
        cbor_decode_u128(bytes)
    }

    fn encode(&self) -> (r: Vec<u8>) {
        write_cbor_u128(*self)
    }

    fn decode(bytes: &[u8]) -> (r: Option<u128>) {
        read_cbor_u128(bytes)
    }
}

/// The `char` that `ciborium` reads from CBOR bytes, if they hold one.
pub uninterp spec fn cbor_decode_char(bytes: Seq<u8>) -> Option<char>;

/// Calls `ciborium::into_writer` on a `char` with a `Vec<u8>` as the writer. Claimed: the
/// bytes are a text string of the character's UTF-8 bytes (`cbor_char`), and `ciborium::from_reader` reads the same value back from them.
/// Writing to a `Vec<u8>` cannot fail, so the result of the call is not inspected.
#[verifier::external_body]
fn write_cbor_char(value: char) -> (r: Vec<u8>)
    ensures
        r@ == cbor_char(value),
        cbor_decode_char(r@) == Some(value),
{
    let mut buffer: Vec<u8> = Vec::new();
    let _ = ciborium::into_writer(&value, &mut buffer);
    buffer
}

/// Calls `ciborium::from_reader` for a `char` on `bytes`. Claimed: the result is the named
/// decoding of the bytes; an error of the call becomes `None`.
#[verifier::external_body]
fn read_cbor_char(bytes: &[u8]) -> (r: Option<char>)
    ensures
        r == cbor_decode_char(bytes@),
{
    ciborium::from_reader::<char, &[u8]>(bytes).ok()
}

impl Message for char {
    type State = char;

    open spec fn spec_apply(&self, state: char) -> char {
        *self
    }

    open spec fn spec_default_state() -> char {
        '\0'
    }

    open spec fn spec_node_alt_size() -> AltSize {
        0
    }

    fn apply_to(&self, state: &mut char) {
        *state = *self;
    }

    fn default_state() -> (r: char) {
        '\0'
    }

    fn clone_state(state: &char) -> (r: char) {
        *state
    }

    fn node_alt_size() -> (r: AltSize) {
        0
    }

    fn into_message(state: char) -> (r: char)
        ensures
            r == state,
    {
        state
    }
}

impl Terminal for char {
    open spec fn spec_encode(value: char) -> Seq<u8> {
        cbor_char(value)
    }

    open spec fn spec_decode(bytes: Seq<u8>) -> Option<char> {
        cbor_decode_char(bytes)
    }

    fn encode(&self) -> (r: Vec<u8>) {
        write_cbor_char(*self)
    }

    fn decode(bytes: &[u8]) -> (r: Option<char>) {
        read_cbor_char(bytes)
    }
}

/// The `bool` that `ciborium` reads from CBOR bytes, if they hold one.
pub uninterp spec fn cbor_decode_bool(bytes: Seq<u8>) -> Option<bool>;

/// Calls `ciborium::into_writer` on a `bool` with a `Vec<u8>` as the writer. Claimed: the
/// bytes are the simple value `false` (0xf4) or `true` (0xf5), and `ciborium::from_reader` reads the same value back from them.
/// Writing to a `Vec<u8>` cannot fail, so the result of the call is not inspected.
#[verifier::external_body]
fn write_cbor_bool(value: bool) -> (r: Vec<u8>)
    ensures
        r@ == cbor_bool(value),
        cbor_decode_bool(r@) == Some(value),
{
    let mut buffer: Vec<u8> = Vec::new();
    let _ = ciborium::into_writer(&value, &mut buffer);
    buffer
}

/// Calls `ciborium::from_reader` for a `bool` on `bytes`. Claimed: the result is the named
/// decoding of the bytes; an error of the call becomes `None`.
#[verifier::external_body]
fn read_cbor_bool(bytes: &[u8]) -> (r: Option<bool>)
    ensures
        r == cbor_decode_bool(bytes@),
{
    ciborium::from_reader::<bool, &[u8]>(bytes).ok()
}

impl Message for bool {
    type State = bool;

    open spec fn spec_apply(&self, state: bool) -> bool {
        *self
    }

    open spec fn spec_default_state() -> bool {
        false
    }

    open spec fn spec_node_alt_size() -> AltSize {
        0
    }

    fn apply_to(&self, state: &mut bool) {
        *state = *self;
    }

    fn default_state() -> (r: bool) {
        false
    }

    fn clone_state(state: &bool) -> (r: bool) {
        *state
    }

    fn node_alt_size() -> (r: AltSize) {
        0
    }

    fn into_message(state: bool) -> (r: bool)
        ensures
            r == state,
    {
        state
    }
}

impl Terminal for bool {
    open spec fn spec_encode(value: bool) -> Seq<u8> {
        cbor_bool(value)
    }

    open spec fn spec_decode(bytes: Seq<u8>) -> Option<bool> {
        cbor_decode_bool(bytes)
    }

    fn encode(&self) -> (r: Vec<u8>) {
        write_cbor_bool(*self)
    }

    fn decode(bytes: &[u8]) -> (r: Option<bool>) {
        read_cbor_bool(bytes)
    }
}

/// The `()` that `ciborium` reads from CBOR bytes, if they hold one.
pub uninterp spec fn cbor_decode_unit(bytes: Seq<u8>) -> Option<()>;

/// Calls `ciborium::into_writer` on a `()` with a `Vec<u8>` as the writer. Claimed: the
/// bytes are the single byte 0xf6, CBOR `null`, and `ciborium::from_reader` reads the same value back from them.
/// Writing to a `Vec<u8>` cannot fail, so the result of the call is not inspected.
#[verifier::external_body]
fn write_cbor_unit(value: ()) -> (r: Vec<u8>)
    ensures
        r@ == seq![0xf6u8],
        cbor_decode_unit(r@) == Some(value),
{
    let mut buffer: Vec<u8> = Vec::new();
    let _ = ciborium::into_writer(&value, &mut buffer);
    buffer
}

/// Calls `ciborium::from_reader` for a `()` on `bytes`. Claimed: the result is the named
/// decoding of the bytes; an error of the call becomes `None`.
#[verifier::external_body]
fn read_cbor_unit(bytes: &[u8]) -> (r: Option<()>)
    ensures
        r == cbor_decode_unit(bytes@),
{
    ciborium::from_reader::<(), &[u8]>(bytes).ok()
}

impl Message for () {
    type State = ();

    open spec fn spec_apply(&self, state: ()) -> () {
        *self
    }

    open spec fn spec_default_state() -> () {
        ()
    }

    open spec fn spec_node_alt_size() -> AltSize {
        0
    }

    fn apply_to(&self, state: &mut ()) {
        *state = *self;
    }

    fn default_state() -> (r: ()) {
        ()
    }

    fn clone_state(state: &()) -> (r: ()) {
        *state
    }

    fn node_alt_size() -> (r: AltSize) {
        0
    }

    fn into_message(state: ()) -> (r: ())
        ensures
            r == state,
    {
        state
    }
}

impl Terminal for () {
    open spec fn spec_encode(value: ()) -> Seq<u8> {
        seq![0xf6u8]
    }

    open spec fn spec_decode(bytes: Seq<u8>) -> Option<()> {
        cbor_decode_unit(bytes)
    }

    fn encode(&self) -> (r: Vec<u8>) {
        write_cbor_unit(*self)
    }

    fn decode(bytes: &[u8]) -> (r: Option<()>) {
        read_cbor_unit(bytes)
    }
}

/// The default state of every terminal is its type's zero value: `0` for the integers,
/// `false`, `'\0'` and `()`; this is what a vector of terminals is filled with when it grows.
pub proof fn law_terminal_defaults_are_zero()
    ensures
        <i8 as Message>::spec_default_state() == 0i8,
        <i16 as Message>::spec_default_state() == 0i16,
        <i32 as Message>::spec_default_state() == 0i32,
        <i64 as Message>::spec_default_state() == 0i64,
        <i128 as Message>::spec_default_state() == 0i128,
        <u8 as Message>::spec_default_state() == 0u8,
        <u16 as Message>::spec_default_state() == 0u16,
        <u32 as Message>::spec_default_state() == 0u32,
        <u64 as Message>::spec_default_state() == 0u64,
        <u128 as Message>::spec_default_state() == 0u128,
        <char as Message>::spec_default_state() == '\0',
        <bool as Message>::spec_default_state() == false,
        <() as Message>::spec_default_state() == (),
{
}

} // verus!
