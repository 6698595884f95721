//! The scheduling decisions of a component: which messages of a cascade are applied, which
//! computed messages are parked for the next round, and which futures are handed back.
//!
//! A cascade starts with one input packet. Applying a message lets the handler emit more
//! messages into the cascade; each key is applied at most once per cascade. Computed
//! ("carry") messages emitted during a cascade are parked, one per key with the latest
//! winning, and are fed back as input once all input has been processed. Futures are
//! handed back to the runtime, which awaits them and feeds their messages back as input.

use vstd::prelude::*;
use crate::packet::{
    Key, KeyView, MessagePacket, MessagePacketCarry, MessagePacketFuture, MessagePacketMessage,
};

verus! {

/// What the runtime does next with the packet it handed to [`Scheduler::schedule`].
pub enum Action<M, C, F> {
    /// Apply the message, let the handler react to it, and output it.
    Apply(MessagePacketMessage<M>),
    /// Compute the message with the carry's lookup, then apply, handle and output it.
    Evaluate(MessagePacketCarry<C>),
    /// A future: await it, and feed its message back as input once it is ready.
    Defer(MessagePacketFuture<F>),
    /// The key was already applied in this cascade: drop the packet.
    Skip,
    /// There was no packet: the cascade is over.
    Done,
}

/// What became of a packet that the handler emitted into the cascade.
pub enum Received<M, F> {
    /// A ready message: it is the next packet of the cascade.
    Next(MessagePacketMessage<M>),
    /// A computed message: it was parked for the next round.
    Parked,
    /// A future: the runtime awaits it and feeds its message back as input.
    Deferred(MessagePacketFuture<F>),
}

/// The scheduling state of a component.
pub struct Scheduler<C> {
    updated: Vec<Key>,
    carry: Vec<MessagePacketCarry<C>>,
}

/// Whether no key occurs twice.
pub open spec fn keys_unique(keys: Seq<KeyView>) -> bool {
    forall|i: int, j: int| 0 <= i < j < keys.len() ==> keys[i] != keys[j]
}

/// The keys of parked carries, in order.
pub open spec fn carry_keys<C>(carries: Seq<MessagePacketCarry<C>>) -> Seq<KeyView> {
    carries.map_values(|c: MessagePacketCarry<C>| c.key@)
}

/// Whether a message with key `key` is applied in a cascade that has applied `updated`.
pub open spec fn spec_schedules(updated: Seq<KeyView>, key: KeyView) -> bool {
    !updated.contains(key)
}

/// The parked carries after parking `carry`: it replaces the carry with the same key, or
/// joins the end.
pub open spec fn spec_park<C>(carries: Seq<MessagePacketCarry<C>>, carry: MessagePacketCarry<C>) -> Seq<MessagePacketCarry<C>> {
    if carry_keys(carries).contains(carry.key@) {
        carries.update(carry_keys(carries).index_of(carry.key@), carry)
    } else {
        carries.push(carry)
    }
}

impl<C> Scheduler<C> {
    /// The keys applied in the current cascade, in order.
    pub closed spec fn updated(&self) -> Seq<KeyView> {
        self.updated@.map_values(|k: Key| k@)
    }

    /// The parked carries, in order.
    pub closed spec fn carries(&self) -> Seq<MessagePacketCarry<C>> {
        self.carry@
    }

    /// Well-formedness: neither applied keys nor parked carries occur twice.
    pub open spec fn wf(&self) -> bool {
        &&& keys_unique(self.updated())
        &&& keys_unique(carry_keys(self.carries()))
    }

    pub fn new() -> (r: Scheduler<C>)
        ensures
            r.wf(),
            r.updated() == Seq::<KeyView>::empty(),
            r.carries() == Seq::<MessagePacketCarry<C>>::empty(),
    {
        let r = Scheduler { updated: Vec::new(), carry: Vec::new() };
        assert(r.updated() =~= Seq::<KeyView>::empty());
        r
    }

    fn is_updated(&self, key: &Key) -> (r: bool)
        ensures
            r == self.updated().contains(key@),
    {
        let n = self.updated.len();
        for i in 0..n
            invariant
                n == self.updated@.len(),
                forall|j: int| 0 <= j < i ==> self.updated()[j] != key@,
        {
            if self.updated[i].same(key) {
                assert(self.updated()[i as int] == key@);
                return true;
            }
        }
        proof {
            if self.updated().contains(key@) {
                let j = choose|j: int| 0 <= j < self.updated().len() && self.updated()[j] == key@;
                assert(self.updated()[j] != key@);
            }
        }
        false
    }

    fn mark_updated(&mut self, key: Key)
        requires
            old(self).wf(),
            !old(self).updated().contains(key@),
        ensures
            final(self).wf(),
            final(self).updated() == old(self).updated().push(key@),
            final(self).carries() == old(self).carries(),
    {
        proof {
            assert(self.updated@.push(key).map_values(|k: Key| k@) =~= self.updated().push(key@));
        }
        self.updated.push(key);
    }

    /// Decides what happens to `packet`, the next packet of the cascade, or `None` when the
    /// cascade has no packet left. A ready or computed message whose key was not applied yet
    /// in this cascade is applied, and its key is remembered; otherwise it is dropped. A
    /// future is handed back to be awaited.
    pub fn schedule<M, F>(&mut self, packet: Option<MessagePacket<M, C, F>>) -> (r: Action<M, C, F>)
        requires
            old(self).wf(),
        ensures
            final(self).wf(),
            final(self).carries() == old(self).carries(),
            match packet {
                None => r is Done && final(self).updated() == old(self).updated(),
                Some(MessagePacket::Message(p)) => if spec_schedules(old(self).updated(), p.key@) {
                    r == Action::<M, C, F>::Apply(p) && final(self).updated() == old(self).updated().push(p.key@)
                } else {
                    r is Skip && final(self).updated() == old(self).updated()
                },
                Some(MessagePacket::Carry(c)) => if spec_schedules(old(self).updated(), c.key@) {
                    r == Action::<M, C, F>::Evaluate(c) && final(self).updated() == old(self).updated().push(c.key@)
                } else {
                    r is Skip && final(self).updated() == old(self).updated()
                },
                Some(MessagePacket::Future(f)) => r == Action::<M, C, F>::Defer(f) && final(self).updated() == old(self).updated(),
            },
    {
        let r = match packet {
            None => Action::Done,
            Some(MessagePacket::Message(p)) => {
                if self.is_updated(&p.key) {
                    Action::Skip
                } else {
                    self.mark_updated(p.key);
                    Action::Apply(p)
                }
            },
            Some(MessagePacket::Carry(c)) => {
                if self.is_updated(&c.key) {
                    Action::Skip
                } else {
                    self.mark_updated(c.key);
                    Action::Evaluate(c)
                }
            },
            Some(MessagePacket::Future(f)) => Action::Defer(f),
        };
        r
    }

    /// Takes in a packet that the handler emitted into the cascade.
    pub fn receive<M, F>(&mut self, recv: MessagePacket<M, C, F>) -> (r: Received<M, F>)
        requires
            old(self).wf(),
        ensures
            final(self).wf(),
            final(self).updated() == old(self).updated(),
            match recv {
                MessagePacket::Message(m) => r == Received::<M, F>::Next(m) && final(self).carries() == old(self).carries(),
                MessagePacket::Carry(c) => r is Parked && final(self).carries() == spec_park(old(self).carries(), c),
                MessagePacket::Future(f) => r == Received::<M, F>::Deferred(f) && final(self).carries() == old(self).carries(),
            },
    {
        let r = match recv {
            MessagePacket::Message(m) => Received::Next(m),
            MessagePacket::Carry(c) => {
                self.park(c);
                Received::Parked
            },
            MessagePacket::Future(f) => Received::Deferred(f),
        };
        r
    }

    fn park(&mut self, carry: MessagePacketCarry<C>)
        requires
            old(self).wf(),
        ensures
            final(self).wf(),
            final(self).updated() == old(self).updated(),
            final(self).carries() == spec_park(old(self).carries(), carry),
    {
        let ghost keys = carry_keys(self.carry@);
        let n = self.carry.len();
        let mut found: Option<usize> = None;
        let mut i: usize = 0;
        while i < n && found.is_none()
            invariant
                i <= n,
                n == self.carry@.len(),
                keys == carry_keys(self.carry@),
                found is None ==> forall|j: int| 0 <= j < i ==> keys[j] != carry.key@,
                found matches Some(k) ==> k < n && keys[k as int] == carry.key@,
            decreases n - i,
        {
            if self.carry[i].key.same(&carry.key) {
                found = Some(i);
            }
            i = i + 1;
        }
        match found {
            Some(i) => {
                proof {
                    assert(keys[i as int] == carry.key@);
                    assert(keys.contains(carry.key@));
                    let k = keys.index_of(carry.key@);
                    assert(0 <= k < keys.len() && keys[k] == carry.key@);
                    assert(k == i);
                    let after = self.carry@.update(i as int, carry);
                    assert(carry_keys(after) =~= keys);
                }
                self.carry.set(i, carry);
            },
            None => {
                proof {
                    assert(!keys.contains(carry.key@)) by {
                        if keys.contains(carry.key@) {
                            let j = choose|j: int| 0 <= j < keys.len() && keys[j] == carry.key@;
                            assert(keys[j] != carry.key@);
                        }
                    }
                    let after = self.carry@.push(carry);
                    assert(carry_keys(after) =~= keys.push(carry.key@));
                }
                self.carry.push(carry);
            },
        }
    }

    /// Ends the current cascade: every key may be applied again in the next one.
    pub fn end_cascade(&mut self)
        requires
            old(self).wf(),
        ensures
            final(self).wf(),
            final(self).updated() == Seq::<KeyView>::empty(),
            final(self).carries() == old(self).carries(),
    {
        self.updated.clear();
        assert(self.updated() =~= Seq::<KeyView>::empty());
    }

    /// Takes all parked carries, in order, to feed them back as input.
    pub fn take_carries(&mut self) -> (r: Vec<MessagePacketCarry<C>>)
        requires
            old(self).wf(),
        ensures
            final(self).wf(),
            r@ == old(self).carries(),
            final(self).carries() == Seq::<MessagePacketCarry<C>>::empty(),
            final(self).updated() == old(self).updated(),
    {
        let mut taken: Vec<MessagePacketCarry<C>> = Vec::new();
        std::mem::swap(&mut taken, &mut self.carry);
        proof {
            assert(carry_keys(self.carry@) =~= Seq::<KeyView>::empty());
        }
        taken
    }
}

/// Within a cascade, a message is applied exactly when no applied key equals its key in
/// both consist and transient.
pub proof fn law_scheduled_iff_key_unseen(updated: Seq<KeyView>, key: KeyView)
    ensures
        spec_schedules(updated, key) <==> (forall|i: int| 0 <= i < updated.len() ==> #[trigger] updated[i] != key),
{
    if !spec_schedules(updated, key) {
        let i = choose|i: int| 0 <= i < updated.len() && updated[i] == key;
        assert(updated[i] == key);
    }
}

/// Items of one collection are applied separately: after a message to one item of a
/// collection, a message to another item (same consist, another transient) is still
/// applied in the same cascade, if its own key was not applied yet.
pub proof fn law_sibling_items_apply_separately(updated: Seq<KeyView>, applied: KeyView, key: KeyView)
    requires
        spec_schedules(updated, key),
        applied.0 == key.0,
        applied.1 != key.1,
    ensures
        spec_schedules(updated.push(applied), key),
{
    law_scheduled_iff_key_unseen(updated, key);
    law_scheduled_iff_key_unseen(updated.push(applied), key);
    assert forall|i: int| 0 <= i < updated.push(applied).len() implies #[trigger] updated.push(applied)[i] != key by {
        if i < updated.len() {
            assert(updated.push(applied)[i] == updated[i]);
        }
    }
}

/// Within a cascade, a key that has been applied is not applied again.
pub proof fn law_key_applied_once(updated: Seq<KeyView>, key: KeyView)
    ensures
        !spec_schedules(updated.push(key), key),
{
    assert(updated.push(key)[updated.len() as int] == key);
}

/// Parking two carries with the same key leaves only the later one: the same as parking
/// only the later one.
pub proof fn law_latest_carry_wins<C>(
    carries: Seq<MessagePacketCarry<C>>,
    first: MessagePacketCarry<C>,
    second: MessagePacketCarry<C>,
)
    requires
        keys_unique(carry_keys(carries)),
        first.key@ == second.key@,
    ensures
        spec_park(spec_park(carries, first), second) == spec_park(carries, second),
        keys_unique(carry_keys(spec_park(carries, second))),
{
    let keys = carry_keys(carries);
    let once = spec_park(carries, first);
    if keys.contains(first.key@) {
        let k = keys.index_of(first.key@);
        assert(carry_keys(once) =~= keys);
        assert(carry_keys(once).index_of(second.key@) == k) by {
            let k2 = carry_keys(once).index_of(second.key@);
            assert(keys[k2] == keys[k]);
        }
        assert(once.update(k, second) =~= carries.update(k, second));
        assert(carry_keys(carries.update(k, second)) =~= keys);
    } else {
        assert(carry_keys(once) =~= keys.push(first.key@));
        assert(carry_keys(once)[keys.len() as int] == second.key@);
        assert(carry_keys(once).contains(second.key@));
        let k2 = carry_keys(once).index_of(second.key@);
        assert(k2 == keys.len()) by {
            if k2 < keys.len() {
                assert(keys[k2] == first.key@);
            }
        }
        assert(once.update(k2, second) =~= carries.push(second));
        assert(carry_keys(carries.push(second)) =~= keys.push(second.key@));
    }
}

} // verus!
