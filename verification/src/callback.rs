//! Where emitted messages go: the consist a callback stamps on them and the sink they take.

use vstd::prelude::*;
use crate::message::Message;
use crate::packet::{
    ALT_DEPTH_SIZE, AltIndex, Consist, ConsistView, IdDelta, Key, MessagePacket,
    MessagePacketCarry, MessagePacketFuture, MessagePacketMessage, Transient, consist_access,
    consist_access_fits, key_transient,
};

verus! {

/// Which sink an emitted message takes: the component's input, or the queue of the
/// message that is being processed.
#[derive(Debug, Clone, Copy, PartialEq, Eq, Structural)]
pub enum CallbackMode {
    Default,
    Process,
}

/// The emitting side of a node: the consist that its messages are addressed with. The sinks
/// themselves are held by the runtime that owns the component.
#[derive(Debug, Clone, Copy)]
pub struct Callback {
    consist: Consist,
}

/// A message on its way to a sink.
#[derive(Debug)]
pub struct Emission<M> {
    pub mode: CallbackMode,
    pub packet: MessagePacketMessage<M>,
}

/// How a child's message becomes its parent's: given the index that the message's key
/// records at the parent's collection level, and the child's message.
pub trait Wrap<C, P>: Sized {
    /// Whether `r` is a parent message that `self` makes of `message` from item `index`.
    spec fn wraps(&self, index: AltIndex, message: C, r: P) -> bool;

    fn wrap(&self, index: AltIndex, message: C) -> (r: P)
        ensures
            self.wraps(index, message, r),
    ;
}

/// A computed or awaited message of a child on its way to the parent: `inner` yields the
/// child's message, and `wrap` makes the parent's of it with `index`.
pub struct Forwarded<T, W> {
    pub index: AltIndex,
    pub wrap: W,
    pub inner: T,
}

/// Whether `r` is `packet`, a packet of a child of the collection at level `depth`, passed
/// on to that collection: key and instant stay, the index is the one the key records at
/// `depth`, a ready message is wrapped now and a computed or awaited one when it is there.
pub open spec fn forwards<M, C, F, P, W: Wrap<M, P>>(
    depth: u32,
    packet: MessagePacket<M, C, F>,
    wrap: W,
    r: MessagePacket<P, Forwarded<C, W>, Forwarded<F, W>>,
) -> bool {
    match (packet, r) {
        (MessagePacket::Message(m), MessagePacket::Message(n)) => {
            &&& n.key@ == m.key@
            &&& n.instant == m.instant
            &&& wrap.wraps(key_transient(m.key@)[depth as int], m.message, n.message)
        },
        (MessagePacket::Carry(c), MessagePacket::Carry(d)) => {
            &&& d.key@ == c.key@
            &&& d.instant == c.instant
            &&& d.lookup == Forwarded { index: key_transient(c.key@)[depth as int], wrap, inner: c.lookup }
        },
        (MessagePacket::Future(f), MessagePacket::Future(g)) => {
            &&& g.key@ == f.key@
            &&& g.instant == f.instant
            &&& g.future == Forwarded { index: key_transient(f.key@)[depth as int], wrap, inner: f.future }
        },
        _ => false,
    }
}

/// A packet emitted by a node whose transient records `index` at level `depth`, passed on
/// by the callback of the collection at that level, keeps its kind, key and instant, and
/// comes to the collection from item `index`, whatever the other levels record: a ready
/// message is wrapped with `index` now, a computed or awaited one carries `index` and its
/// own lookup or future.
pub proof fn law_forward_reads_the_index_at_its_depth<M, C, F, P, W: Wrap<M, P>>(
    depth: u32,
    transient: Seq<u32>,
    index: AltIndex,
    packet: MessagePacket<M, C, F>,
    wrap: W,
    r: MessagePacket<P, Forwarded<C, W>, Forwarded<F, W>>,
)
    requires
        depth < ALT_DEPTH_SIZE,
        transient.len() == ALT_DEPTH_SIZE,
        forwards(depth, packet, wrap, r),
        match packet {
            MessagePacket::Message(m) => key_transient(m.key@) == transient.update(depth as int, index),
            MessagePacket::Carry(c) => key_transient(c.key@) == transient.update(depth as int, index),
            MessagePacket::Future(f) => key_transient(f.key@) == transient.update(depth as int, index),
        },
    ensures
        match packet {
            MessagePacket::Message(m) => r matches MessagePacket::Message(n)
                && n.key@ == m.key@ && n.instant == m.instant && wrap.wraps(index, m.message, n.message),
            MessagePacket::Carry(c) => r matches MessagePacket::Carry(d)
                && d.key@ == c.key@ && d.instant == c.instant
                && d.lookup.index == index && d.lookup.inner == c.lookup && d.lookup.wrap == wrap,
            MessagePacket::Future(f) => r matches MessagePacket::Future(g)
                && g.key@ == f.key@ && g.instant == f.instant
                && g.future.index == index && g.future.inner == f.future && g.future.wrap == wrap,
        },
{
}

impl View for Callback {
    type V = ConsistView;

    closed spec fn view(&self) -> ConsistView {
        self.consist@
    }
}

impl Callback {
    pub fn consist(&self) -> (r: Consist)
        ensures
            r@ == self@,
    {
        self.consist
    }

    pub fn new(consist: Consist) -> (r: Callback)
        ensures
            r@ == consist@,
    {
        Callback { consist }
    }

    /// The callback of a child `id_delta` ids below a node of state `P` whose consist is
    /// `consist`: the child is one id range further and `P`'s collection levels deeper.
    /// The child's packets reach the node through `forward` on the node's own callback.
    pub fn access<P: Message>(consist: Consist, id_delta: IdDelta) -> (r: Callback)
        requires
            consist_access_fits(consist@, id_delta, P::spec_node_alt_size()),
        ensures
            r@ == consist_access(consist@, id_delta, P::spec_node_alt_size()),
    {
        Callback { consist: consist.access(id_delta, P::node_alt_size()) }
    }

    /// Passes `packet`, emitted below this callback's node by a child, on to this node:
    /// the child's messages become this node's by `wrap`, with the index that the packet's
    /// key records at this node's collection level.
    pub fn forward<M, C, F, P, W: Wrap<M, P>>(&self, packet: MessagePacket<M, C, F>, wrap: W) -> (r: MessagePacket<P, Forwarded<C, W>, Forwarded<F, W>>)
        requires
            self@.1 < ALT_DEPTH_SIZE,
        ensures
            forwards(self@.1, packet, wrap, r),
    {
        let depth = self.consist.alt_depth();
        match packet {
            MessagePacket::Message(m) => {
                let index = m.index(depth);
                let MessagePacketMessage { key, instant, message } = m;
                MessagePacket::Message(MessagePacketMessage { key, instant, message: wrap.wrap(index, message) })
            },
            MessagePacket::Carry(c) => {
                let index = c.key.transient().index(depth);
                let MessagePacketCarry { key, instant, lookup } = c;
                MessagePacket::Carry(MessagePacketCarry { key, instant, lookup: Forwarded { index, wrap, inner: lookup } })
            },
            MessagePacket::Future(f) => {
                let index = f.key.transient().index(depth);
                let MessagePacketFuture { key, instant, future } = f;
                MessagePacket::Future(MessagePacketFuture { key, instant, future: Forwarded { index, wrap, inner: future } })
            },
        }
    }

    /// The key of this callback's node at `transient`.
    pub fn key(&self, transient: &Transient) -> (r: Key)
        ensures
            r@ == (self@, transient@),
    {
        Key::new(self.consist, *transient)
    }

    /// Addresses `message` to this callback's node at `transient` and sends it to the sink
    /// that `mode` names.
    pub fn emit<M>(&self, mode: &CallbackMode, transient: &Transient, message: M) -> (r: Emission<M>)
        ensures
            r.mode == *mode,
            r.packet.key@ == (self@, transient@),
            r.packet.instant is None,
            r.packet.message == message,
    {
        Emission { mode: *mode, packet: MessagePacketMessage::new(self.key(transient), message) }
    }
}

} // verus!
