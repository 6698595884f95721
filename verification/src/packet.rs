//! Keys that address nodes of a state tree, and the packets that carry a payload to a key.

use vstd::prelude::*;

verus! {

/// Number of collection levels a key can record indices for.
pub const ALT_DEPTH_SIZE: usize = 4;

/// Index of an item inside a collection node.
pub type AltIndex = u32;

/// Number of collection levels that a node adds below itself.
pub type AltSize = u32;

/// Distance between the ids of two nodes.
pub type IdDelta = u32;

/// Number of ids a node occupies.
pub type IdSize = u32;

/// The id of a node in its state tree.
#[derive(Debug, Clone, Copy, PartialEq, Eq, PartialOrd, Ord, Hash)]
pub struct Id(u32);

/// The number of collection levels above a node.
#[derive(Debug, Clone, Copy, PartialEq, Eq, PartialOrd, Ord, Hash)]
pub struct AltDepth(u32);

/// The static part of a key: which node, at which collection depth.
#[derive(Debug, Clone, Copy, PartialEq, Eq, Hash)]
pub struct Consist(Id, AltDepth);

/// The dynamic part of a key: the index chosen at each collection level.
#[derive(Debug, Clone, Copy, PartialEq, Eq, Hash)]
pub struct Transient([AltIndex; ALT_DEPTH_SIZE]);

/// The full address of a node: its consist and its transient.
#[derive(Debug, Clone, Copy, PartialEq, Eq, Hash)]
pub struct Key(Consist, Transient);

/// Serialized state carried by a packet; `None` when there is nothing to carry.
#[derive(Debug)]
pub struct Payload(Option<Vec<u8>>);

/// A payload addressed to a key.
#[derive(Debug)]
pub struct Packet {
    key: Key,
    payload: Payload,
}

/// A point in time, as `std::time::Instant` measures it; carried through, never inspected.
#[verifier::external_type_specification]
#[verifier::external_body]
pub struct ExInstant(std::time::Instant);

/// A message addressed to a key, with the time it was first scheduled, if it was deferred.
#[derive(Debug, Clone)]
pub struct MessagePacketMessage<M> {
    pub key: Key,
    pub instant: Option<std::time::Instant>,
    pub message: M,
}

/// A message that is computed when it is processed: `lookup` yields it.
pub struct MessagePacketCarry<C> {
    pub key: Key,
    pub instant: std::time::Instant,
    pub lookup: C,
}

/// A message that a future will yield.
pub struct MessagePacketFuture<F> {
    pub key: Key,
    pub instant: std::time::Instant,
    pub future: F,
}

/// A message as it travels towards the component that applies it: ready, computed on
/// processing, or still to be awaited.
pub enum MessagePacket<M, C, F> {
    Message(MessagePacketMessage<M>),
    Carry(MessagePacketCarry<C>),
    Future(MessagePacketFuture<F>),
}

/// Mathematical view of a consist: (id, alt depth).
pub type ConsistView = (u32, u32);

/// Mathematical view of a key: (consist view, one index per collection level).
pub type KeyView = (ConsistView, Seq<u32>);

impl View for Id {
    type V = u32;

    closed spec fn view(&self) -> u32 {
        self.0
    }
}

impl View for AltDepth {
    type V = u32;

    closed spec fn view(&self) -> u32 {
        self.0
    }
}

impl View for Consist {
    type V = ConsistView;

    closed spec fn view(&self) -> ConsistView {
        (self.0@, self.1@)
    }
}

impl View for Transient {
    type V = Seq<u32>;

    closed spec fn view(&self) -> Seq<u32> {
        self.0@
    }
}

impl View for Key {
    type V = KeyView;

    closed spec fn view(&self) -> KeyView {
        (self.0@, self.1@)
    }
}

/// Mathematical view of a packet: (key view, payload view).
pub type PacketView = (KeyView, Option<Seq<u8>>);

impl View for Packet {
    type V = PacketView;

    closed spec fn view(&self) -> PacketView {
        (self.key@, self.payload@)
    }
}

impl View for Payload {
    type V = Option<Seq<u8>>;

    closed spec fn view(&self) -> Option<Seq<u8>> {
        match self.0 {
            Some(bytes) => Some(bytes@),
            None => None,
        }
    }
}

/// The id recorded in a key view.
pub open spec fn key_id(k: KeyView) -> u32 {
    k.0.0
}

/// The alt depth recorded in a key view.
pub open spec fn key_alt_depth(k: KeyView) -> u32 {
    k.0.1
}

/// The transient indices recorded in a key view.
pub open spec fn key_transient(k: KeyView) -> Seq<u32> {
    k.1
}

/// A consist moved `id_delta` ids further and `alt_size` levels deeper.
pub open spec fn consist_access(c: ConsistView, id_delta: u32, alt_size: u32) -> ConsistView {
    ((c.0 + id_delta) as u32, (c.1 + alt_size) as u32)
}

/// Whether moving a consist by `id_delta` and `alt_size` stays within `u32`.
pub open spec fn consist_access_fits(c: ConsistView, id_delta: u32, alt_size: u32) -> bool {
    c.0 + id_delta <= u32::MAX && c.1 + alt_size <= u32::MAX
}

/// Every key view has one index per collection level.
pub proof fn lemma_key_transient_len(k: Key)
    ensures
        key_transient(k@).len() == ALT_DEPTH_SIZE,
{
}

/// Every transient has one index per collection level.
pub proof fn lemma_transient_len(t: Transient)
    ensures
        t@.len() == ALT_DEPTH_SIZE,
{
}

/// Going `id_delta` ids further and measuring the distance back gives `id_delta`.
pub proof fn law_id_sub_undoes_add(id: u32, id_delta: u32)
    requires
        id + id_delta <= u32::MAX,
    ensures
        ((id + id_delta) as u32) - id == id_delta,
{
}

/// Moving a consist twice is moving it once by the sums: the addresses of nested children
/// add up along the path.
pub proof fn law_consist_access_composes(c: ConsistView, d1: u32, s1: u32, d2: u32, s2: u32)
    requires
        c.0 + d1 + d2 <= u32::MAX,
        c.1 + s1 + s2 <= u32::MAX,
    ensures
        consist_access_fits(c, d1, s1),
        consist_access_fits(consist_access(c, d1, s1), d2, s2),
        consist_access(consist_access(c, d1, s1), d2, s2) == consist_access(c, (d1 + d2) as u32, (s1 + s2) as u32),
{
}

/// Recording an index at a depth, then reading that depth, gives the index; the other
/// depths keep theirs.
pub proof fn law_index_after_alt(t: Seq<u32>, depth: u32, index: u32, other: u32)
    requires
        depth < t.len(),
        other < t.len(),
        other != depth,
    ensures
        t.update(depth as int, index)[depth as int] == index,
        t.update(depth as int, index)[other as int] == t[other as int],
{
}

impl Id {
    /// The id `id_delta` after this one.
    pub fn add(self, id_delta: IdDelta) -> (r: Id)
        requires
            self@ + id_delta <= u32::MAX,
        ensures
            r@ == self@ + id_delta,
    {
        Id(self.0 + id_delta)
    }

    /// The distance from `rhs` up to this id.
    pub fn sub(self, rhs: Id) -> (r: IdDelta)
        requires
            rhs@ <= self@,
        ensures
            r == self@ - rhs@,
    {
        self.0 - rhs.0
    }
}

impl Default for Id {
    fn default() -> (r: Id)
        ensures
            r@ == 0,
    {
        Id(0)
    }
}

impl AltDepth {
    /// The depth `rhs` levels below this one.
    pub fn add(self, rhs: u32) -> (r: AltDepth)
        requires
            self@ + rhs <= u32::MAX,
        ensures
            r@ == self@ + rhs,
    {
        AltDepth(self.0 + rhs)
    }
}

impl Default for AltDepth {
    fn default() -> (r: AltDepth)
        ensures
            r@ == 0,
    {
        AltDepth(0)
    }
}

impl Consist {
    pub fn id(&self) -> (r: Id)
        ensures
            r@ == self@.0,
    {
        self.0
    }

    pub fn alt_depth(&self) -> (r: AltDepth)
        ensures
            r@ == self@.1,
    {
        self.1
    }

    pub fn new(id: Id, alt_depth: AltDepth) -> (r: Consist)
        ensures
            r@ == (id@, alt_depth@),
    {
        Consist(id, alt_depth)
    }

    /// The consist of a child node `id_delta` ids further that adds `alt_size` levels.
    pub fn access(self, id_delta: IdDelta, alt_size: AltSize) -> (r: Consist)
        requires
            consist_access_fits(self@, id_delta, alt_size),
        ensures
            r@ == consist_access(self@, id_delta, alt_size),
    {
        Consist(self.0.add(id_delta), self.1.add(alt_size))
    }
}

impl Default for Consist {
    fn default() -> (r: Consist)
        ensures
            r@ == (0u32, 0u32),
    {
        Consist(Id::default(), AltDepth::default())
    }
}

impl Transient {
    /// The index recorded at collection level `alt_depth`.
    pub fn index(&self, alt_depth: AltDepth) -> (r: AltIndex)
        requires
            alt_depth@ < ALT_DEPTH_SIZE,
        ensures
            r == self@[alt_depth@ as int],
    {
        self.0[alt_depth.0 as usize]
    }

    /// This transient with `index` recorded at collection level `depth`.
    pub fn alt(self, depth: AltDepth, index: AltIndex) -> (r: Transient)
        requires
            depth@ < ALT_DEPTH_SIZE,
        ensures
            r@ == self@.update(depth@ as int, index),
    {
        let mut indices = self.0;
        indices[depth.0 as usize] = index;
        Transient(indices)
    }
}

impl Default for Transient {
    fn default() -> (r: Transient)
        ensures
            r@ == seq![0u32, 0u32, 0u32, 0u32],
    {
        let r = Transient([0, 0, 0, 0]);
        assert(r@ =~= seq![0u32, 0u32, 0u32, 0u32]);
        r
    }
}

impl Key {
    pub fn consist(&self) -> (r: Consist)
        ensures
            r@ == self@.0,
    {
        self.0
    }

    pub fn transient(&self) -> (r: Transient)
        ensures
            r@ == self@.1,
    {
        self.1
    }

    pub fn new(consist: Consist, transient: Transient) -> (r: Key)
        ensures
            r@ == (consist@, transient@),
    {
        Key(consist, transient)
    }

    /// The key of a child node `id_delta` ids further that adds `alt_size` levels.
    pub fn access(self, id_delta: IdDelta, alt_size: AltSize) -> (r: Key)
        requires
            consist_access_fits(self@.0, id_delta, alt_size),
        ensures
            r@ == (consist_access(self@.0, id_delta, alt_size), self@.1),
    {
        Key(self.0.access(id_delta, alt_size), self.1)
    }

    /// This key with `index` recorded at its own collection level.
    pub fn alt(self, index: AltIndex) -> (r: Key)
        requires
            key_alt_depth(self@) < ALT_DEPTH_SIZE,
        ensures
            r@ == (self@.0, self@.1.update(key_alt_depth(self@) as int, index)),
    {
        let transient = self.transient().alt(self.consist().alt_depth(), index);
        Key(self.0, transient)
    }

    /// Whether two keys address the same node.
    pub fn same(&self, other: &Key) -> (r: bool)
        ensures
            r == (self@ == other@),
    {
        let a = self.1.0;
        let b = other.1.0;
        let r = self.0.0.0 == other.0.0.0 && self.0.1.0 == other.0.1.0 && a[0] == b[0] && a[1]
            == b[1] && a[2] == b[2] && a[3] == b[3];
        proof {
            if r {
                assert(self@.1 =~= other@.1);
            }
        }
        r
    }
}

impl Default for Key {
    fn default() -> (r: Key)
        ensures
            r@ == ((0u32, 0u32), seq![0u32, 0u32, 0u32, 0u32]),
    {
        Key(Consist::default(), Transient::default())
    }
}

impl Payload {
    /// A payload carrying `bytes`.
    pub fn new(bytes: Vec<u8>) -> (r: Payload)
        ensures
            r@ == Some(bytes@),
    {
        Payload(Some(bytes))
    }

    /// The bytes carried, if any.
    pub fn bytes(&self) -> (r: Option<&Vec<u8>>)
        ensures
            match r {
                Some(b) => self@ == Some(b@),
                None => self@ is None,
            },
    {
        match &self.0 {
            Some(b) => Some(b),
            None => None,
        }
    }
}

impl Clone for Payload {
    fn clone(&self) -> (r: Payload)
        ensures
            r@ == self@,
    {
        match &self.0 {
            Some(bytes) => {
                let copy = bytes.clone();
                assert(copy@ =~= bytes@);
                Payload(Some(copy))
            },
            None => Payload(None),
        }
    }
}

impl Clone for Packet {
    fn clone(&self) -> (r: Packet)
        ensures
            r@ == self@,
    {
        Packet { key: self.key, payload: self.payload.clone() }
    }
}

impl Default for Payload {
    fn default() -> (r: Payload)
        ensures
            r@ is None,
    {
        Payload(None)
    }
}

impl<M> MessagePacketMessage<M> {
    /// A ready message addressed to `key`.
    pub fn new(key: Key, message: M) -> (r: MessagePacketMessage<M>)
        ensures
            r.key@ == key@,
            r.instant is None,
            r.message == message,
    {
        MessagePacketMessage { key, instant: None, message }
    }

    /// The index this message's key records at `alt_depth`: the item of the collection at
    /// that depth that the message comes from.
    pub fn index(&self, alt_depth: AltDepth) -> (r: AltIndex)
        requires
            alt_depth@ < ALT_DEPTH_SIZE,
        ensures
            r == key_transient(self.key@)[alt_depth@ as int],
    {
        self.key.transient().index(alt_depth)
    }

    /// This message as a message of the parent collection at `alt_depth`: `wrap` receives
    /// the index recorded at that depth and the message. Key and instant stay.
    pub fn wrap<P, F: Fn(AltIndex, M) -> P>(self, alt_depth: AltDepth, wrap: F) -> (r: MessagePacketMessage<P>)
        requires
            alt_depth@ < ALT_DEPTH_SIZE,
            wrap.requires((key_transient(self.key@)[alt_depth@ as int], self.message)),
        ensures
            r.key@ == self.key@,
            r.instant == self.instant,
            wrap.ensures((key_transient(self.key@)[alt_depth@ as int], self.message), r.message),
    {
        let index = self.index(alt_depth);
        let MessagePacketMessage { key, instant, message } = self;
        MessagePacketMessage { key, instant, message: wrap(index, message) }
    }
}

impl Packet {
    pub fn key(&self) -> (r: Key)
        ensures
            r@ == self@.0,
    {
        self.key
    }

    pub fn payload(&self) -> (r: &Payload)
        ensures
            r@ == self@.1,
    {
        &self.payload
    }

    pub fn new(key: Key, payload: Payload) -> (r: Packet)
        ensures
            r@ == (key@, payload@),
    {
        Packet { key, payload }
    }
}

} // verus!
