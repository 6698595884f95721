//! Vector states: a collection node whose items are addressed by index.

use vstd::prelude::*;
use crate::callback::{Callback, CallbackMode, Emission, Forwarded, Wrap, forwards};
use crate::message::Message as NodeMessage;
use crate::node::{NewNode, NodeAlt};
use crate::packet::{
    ALT_DEPTH_SIZE, AltDepth, AltIndex, AltSize, ConsistView, IdDelta, Key, KeyView,
    MessagePacket, MessagePacketMessage, Transient, consist_access, consist_access_fits, key_alt_depth, key_id,
    key_transient,
};

verus! {

/// A message of a vector of states whose items take messages `M`.
#[derive(Debug, Clone)]
pub enum Message<M: NodeMessage> {
    /// Appends an item.
    Push(M::State),
    /// Removes the last item, if any.
    Pop,
    /// Truncates, or extends with default items, to the given length.
    Len(AltIndex),
    /// Applies a message to the item at an index, if it exists.
    Item(AltIndex, M),
    /// Replaces the whole vector.
    State(Vec<M::State>),
}

/// The deep view of a vector of `M`'s states after applying `message`.
pub open spec fn spec_vec_apply<M: NodeMessage>(
    message: Message<M>,
    items: Seq<<M::State as DeepView>::V>,
) -> Seq<<M::State as DeepView>::V> {
    match message {
        Message::Push(item) => items.push(item.deep_view()),
        Message::Pop => if items.len() > 0 {
            items.drop_last()
        } else {
            items
        },
        Message::Len(len) => if len <= items.len() {
            items.take(len as int)
        } else {
            items + Seq::new((len - items.len()) as nat, |_i: int| M::spec_default_state())
        },
        Message::Item(index, m) => if index < items.len() {
            items.update(index as int, m.spec_apply(items[index as int]))
        } else {
            items
        },
        Message::State(state) => state.deep_view(),
    }
}

/// A copy of every item of `items`.
pub fn clone_items<M: NodeMessage>(items: &Vec<M::State>) -> (r: Vec<M::State>)
    ensures
        r.deep_view() == items.deep_view(),
{
    let mut r: Vec<M::State> = Vec::new();
    let n = items.len();
    for i in 0..n
        invariant
            n == items.len(),
            r.len() == i,
            forall|j: int| 0 <= j < i ==> #[trigger] r@[j].deep_view() == items@[j].deep_view(),
    {
        r.push(M::clone_state(&items[i]));
    }
    assert(r.deep_view() =~= items.deep_view());
    r
}

impl<M: NodeMessage> NodeMessage for Message<M> {
    type State = Vec<M::State>;

    open spec fn spec_apply(&self, state: Seq<<M::State as DeepView>::V>) -> Seq<<M::State as DeepView>::V> {
        spec_vec_apply(*self, state)
    }

    open spec fn spec_default_state() -> Seq<<M::State as DeepView>::V> {
        Seq::empty()
    }

    open spec fn spec_node_alt_size() -> AltSize {
        1
    }

    fn apply_to(&self, state: &mut Vec<M::State>) {
        match self {
            Message::Push(item) => {
                state.push(M::clone_state(item));
                assert(state.deep_view() =~= old(state).deep_view().push(item.deep_view()));
            },
            Message::Pop => {
                if state.len() > 0 {
                    state.pop();
                    assert(state.deep_view() =~= old(state).deep_view().drop_last());
                }
            },
            Message::Len(len) => {
                let len = *len as usize;
                if len <= state.len() {
                    state.truncate(len);
                    assert(state.deep_view() =~= old(state).deep_view().take(len as int));
                } else {
                    let ghost before = old(state).deep_view();
                    while state.len() < len
                        invariant
                            before.len() <= state.len() <= len,
                            state.deep_view() =~= before + Seq::new(
                                (state.len() - before.len()) as nat,
                                |_i: int| M::spec_default_state(),
                            ),
                        decreases len - state.len(),
                    {
                        let ghost mid = state.deep_view();
                        state.push(M::default_state());
                        assert(state.deep_view() =~= mid.push(M::spec_default_state()));
                    }
                }
            },
            Message::Item(index, m) => {
                let index = *index as usize;
                if index < state.len() {
                    let mut item = M::clone_state(&state[index]);
                    m.apply_to(&mut item);
                    state.set(index, item);
                    assert(state.deep_view() =~= old(state).deep_view().update(
                        index as int,
                        m.spec_apply(old(state).deep_view()[index as int]),
                    ));
                }
            },
            Message::State(new_state) => {
                *state = clone_items::<M>(new_state);
            },
        }
    }

    fn default_state() -> (r: Vec<M::State>) {
        let r = Vec::new();
        assert(r.deep_view() =~= Seq::<<M::State as DeepView>::V>::empty());
        r
    }

    fn clone_state(state: &Vec<M::State>) -> (r: Vec<M::State>) {
        clone_items::<M>(state)
    }

    fn node_alt_size() -> (r: AltSize) {
        1
    }

    fn into_message(state: Vec<M::State>) -> (r: Message<M>)
        ensures
            r == Message::<M>::State(state),
    {
        Message::State(state)
    }
}

/// Id delta of the push child of a vector node.
pub const PUSH_ID_DELTA: IdDelta = 1;

/// Id delta of the pop child of a vector node.
pub const POP_ID_DELTA: IdDelta = 2;

/// Id delta of the length child of a vector node.
pub const LEN_ID_DELTA: IdDelta = 3;

/// Id delta of the item children of a vector node; an item's descendants follow it.
pub const ITEM_ID_DELTA: IdDelta = 4;

/// Which part of a vector node a packet is addressed to, as read from its key.
#[derive(Debug, Clone, Copy)]
pub enum VecRoute {
    /// The whole vector.
    State,
    /// The push child.
    Push,
    /// The pop child.
    Pop,
    /// The length child, whose own key is given.
    Len(Key),
    /// An item, at the given index, whose parent key for reading further is given.
    Item(AltIndex, Key),
}

/// Mathematical view of a route.
pub enum VecRouteView {
    State,
    Push,
    Pop,
    Len(KeyView),
    Item(u32, KeyView),
}

impl View for VecRoute {
    type V = VecRouteView;

    open spec fn view(&self) -> VecRouteView {
        match *self {
            VecRoute::State => VecRouteView::State,
            VecRoute::Push => VecRouteView::Push,
            VecRoute::Pop => VecRouteView::Pop,
            VecRoute::Len(k) => VecRouteView::Len(k@),
            VecRoute::Item(i, k) => VecRouteView::Item(i, k@),
        }
    }
}

/// The route of a packet addressed to `packet` below the vector node addressed by `parent`:
/// decided by the distance between their ids.
pub open spec fn spec_vec_route(packet: KeyView, parent: KeyView) -> VecRouteView {
    let delta = key_id(packet) - key_id(parent);
    if delta == 0 {
        VecRouteView::State
    } else if delta == PUSH_ID_DELTA {
        VecRouteView::Push
    } else if delta == POP_ID_DELTA {
        VecRouteView::Pop
    } else if delta == LEN_ID_DELTA {
        VecRouteView::Len((consist_access(parent.0, LEN_ID_DELTA, 1), parent.1))
    } else {
        VecRouteView::Item(
            key_transient(packet)[key_alt_depth(parent) as int],
            (consist_access(parent.0, ITEM_ID_DELTA, 1), parent.1),
        )
    }
}

/// When a packet at `packet` can be routed below the vector node at `parent`: it is not
/// above the node, and the keys that routing computes exist.
pub open spec fn vec_route_defined(packet: KeyView, parent: KeyView) -> bool {
    &&& key_id(parent) <= key_id(packet)
    &&& key_id(packet) - key_id(parent) == LEN_ID_DELTA ==> key_alt_depth(parent) < u32::MAX
    &&& key_id(packet) - key_id(parent) >= ITEM_ID_DELTA ==> key_alt_depth(parent) < ALT_DEPTH_SIZE
}

/// Reads where below the vector node at `parent_key` the packet at `packet_key` goes.
pub fn route(packet_key: &Key, parent_key: &Key) -> (r: VecRoute)
    requires
        vec_route_defined(packet_key@, parent_key@),
    ensures
        r@ == spec_vec_route(packet_key@, parent_key@),
{
    let delta = packet_key.consist().id().sub(parent_key.consist().id());
    if delta == 0 {
        VecRoute::State
    } else if delta == PUSH_ID_DELTA {
        VecRoute::Push
    } else if delta == POP_ID_DELTA {
        VecRoute::Pop
    } else if delta == LEN_ID_DELTA {
        VecRoute::Len(Key::new(parent_key.consist().access(LEN_ID_DELTA, 1), parent_key.transient()))
    } else {
        let index = packet_key.transient().index(parent_key.consist().alt_depth());
        VecRoute::Item(
            index,
            Key::new(parent_key.consist().access(ITEM_ID_DELTA, 1), parent_key.transient()),
        )
    }
}

/// The emitting side of a vector node and of its children.
#[derive(Debug, Clone, Copy)]
pub struct Emitter {
    pub callback: Callback,
    pub push: Callback,
    pub pop: Callback,
    pub len: Callback,
    pub item: Callback,
}

impl Emitter {
    pub fn callback(&self) -> (r: Callback)
        ensures
            r@ == self.callback@,
    {
        self.callback
    }

    /// The children's callbacks of the vector node whose callback is `callback`; the items
    /// take messages `M`. What the children emit reaches the vector through `forward_push`,
    /// `forward_pop`, `forward_len` and `forward_item`.
    pub fn new<M: NodeMessage>(callback: Callback) -> (r: Emitter)
        requires
            consist_access_fits(callback@, ITEM_ID_DELTA, 1),
        ensures
            r.callback@ == callback@,
            r.push@ == consist_access(callback@, PUSH_ID_DELTA, 1),
            r.pop@ == consist_access(callback@, POP_ID_DELTA, 1),
            r.len@ == consist_access(callback@, LEN_ID_DELTA, 1),
            r.item@ == consist_access(callback@, ITEM_ID_DELTA, 1),
    {
        let consist = callback.consist();
        Emitter {
            push: Callback::access::<Message<M>>(consist, PUSH_ID_DELTA),
            pop: Callback::access::<Message<M>>(consist, POP_ID_DELTA),
            len: Callback::access::<Message<M>>(consist, LEN_ID_DELTA),
            item: Callback::access::<Message<M>>(consist, ITEM_ID_DELTA),
            callback,
        }
    }

    /// A packet emitted through the push child, as the vector's: a push of the item that
    /// the child's message makes of a default item.
    pub fn forward_push<M: NodeMessage, C, F>(&self, packet: MessagePacket<M, C, F>) -> (r: MessagePacket<Message<M>, Forwarded<C, PushWrap>, Forwarded<F, PushWrap>>)
        requires
            self.callback@.1 < ALT_DEPTH_SIZE,
        ensures
            forwards(self.callback@.1, packet, PushWrap, r),
    {
        self.callback.forward(packet, PushWrap)
    }

    /// A packet emitted through the pop child, as the vector's: a pop.
    pub fn forward_pop<M: NodeMessage, C, F>(&self, packet: MessagePacket<(), C, F>) -> (r: MessagePacket<Message<M>, Forwarded<C, PopWrap>, Forwarded<F, PopWrap>>)
        requires
            self.callback@.1 < ALT_DEPTH_SIZE,
        ensures
            forwards(self.callback@.1, packet, PopWrap, r),
    {
        self.callback.forward(packet, PopWrap)
    }

    /// A packet emitted through the length child, as the vector's: a length message.
    pub fn forward_len<M: NodeMessage, C, F>(&self, packet: MessagePacket<AltIndex, C, F>) -> (r: MessagePacket<Message<M>, Forwarded<C, LenWrap>, Forwarded<F, LenWrap>>)
        requires
            self.callback@.1 < ALT_DEPTH_SIZE,
        ensures
            forwards(self.callback@.1, packet, LenWrap, r),
    {
        self.callback.forward(packet, LenWrap)
    }

    /// A packet emitted below the item children, as the vector's: a message to the item
    /// whose index the packet's key records at the vector's level.
    pub fn forward_item<M: NodeMessage, C, F>(&self, packet: MessagePacket<M, C, F>) -> (r: MessagePacket<Message<M>, Forwarded<C, ItemWrap>, Forwarded<F, ItemWrap>>)
        requires
            self.callback@.1 < ALT_DEPTH_SIZE,
        ensures
            forwards(self.callback@.1, packet, ItemWrap, r),
    {
        self.callback.forward(packet, ItemWrap)
    }
}

/// What the push child's messages become in the vector.
#[derive(Debug, Clone, Copy)]
pub struct PushWrap;

/// What the pop child's messages become in the vector.
#[derive(Debug, Clone, Copy)]
pub struct PopWrap;

/// What the length child's messages become in the vector.
#[derive(Debug, Clone, Copy)]
pub struct LenWrap;

/// What the items' messages become in the vector.
#[derive(Debug, Clone, Copy)]
pub struct ItemWrap;

impl<M: NodeMessage> Wrap<M, Message<M>> for PushWrap {
    open spec fn wraps(&self, index: AltIndex, message: M, r: Message<M>) -> bool {
        r matches Message::Push(item) && item.deep_view() == message.spec_apply(M::spec_default_state())
    }

    fn wrap(&self, index: AltIndex, message: M) -> (r: Message<M>) {
        wrap_push(index, message)
    }
}

impl<M: NodeMessage> Wrap<(), Message<M>> for PopWrap {
    open spec fn wraps(&self, index: AltIndex, message: (), r: Message<M>) -> bool {
        r matches Message::Pop
    }

    fn wrap(&self, index: AltIndex, message: ()) -> (r: Message<M>) {
        wrap_pop(index, message)
    }
}

impl<M: NodeMessage> Wrap<AltIndex, Message<M>> for LenWrap {
    open spec fn wraps(&self, index: AltIndex, len: AltIndex, r: Message<M>) -> bool {
        r matches Message::Len(l) && l == len
    }

    fn wrap(&self, index: AltIndex, len: AltIndex) -> (r: Message<M>) {
        wrap_len(index, len)
    }
}

impl<M: NodeMessage> Wrap<M, Message<M>> for ItemWrap {
    open spec fn wraps(&self, index: AltIndex, message: M, r: Message<M>) -> bool {
        r == Message::Item(index, message)
    }

    fn wrap(&self, index: AltIndex, message: M) -> (r: Message<M>) {
        wrap_item(index, message)
    }
}


/// The vector message that a message sent through the push child stands for: an item made
/// by applying the message to a default item.
pub fn wrap_push<M: NodeMessage>(index: AltIndex, message: M) -> (r: Message<M>)
    ensures
        r matches Message::Push(item) && item.deep_view() == message.spec_apply(M::spec_default_state()),
{
    let mut item = M::default_state();
    message.apply_to(&mut item);
    Message::Push(item)
}

/// The vector message that a message sent through the pop child stands for.
pub fn wrap_pop<M: NodeMessage>(index: AltIndex, message: ()) -> (r: Message<M>)
    ensures
        r matches Message::Pop,
{
    Message::Pop
}

/// The vector message that a message sent through the length child stands for.
pub fn wrap_len<M: NodeMessage>(index: AltIndex, len: AltIndex) -> (r: Message<M>)
    ensures
        r matches Message::Len(l) && l == len,
{
    Message::Len(len)
}

/// The vector message that a message from the item at `index` stands for.
pub fn wrap_item<M: NodeMessage>(index: AltIndex, message: M) -> (r: Message<M>)
    ensures
        r == Message::Item(index, message),
{
    Message::Item(index, message)
}

/// A message emitted below the item children of the vector node whose consist has depth
/// `alt_depth`, as a message of that vector: the item is the index its key records there.
pub fn wrap_item_packet<M: NodeMessage>(packet: MessagePacketMessage<M>, alt_depth: AltDepth) -> (r: MessagePacketMessage<Message<M>>)
    requires
        alt_depth@ < ALT_DEPTH_SIZE,
    ensures
        r.key@ == packet.key@,
        r.instant == packet.instant,
        r.message == Message::Item(key_transient(packet.key@)[alt_depth@ as int], packet.message),
{
    packet.wrap(alt_depth, |index: AltIndex, message: M| -> (r: Message<M>)
        ensures
            r == Message::Item(index, message),
        { wrap_item(index, message) })
}

/// A vector node at one position: the vector's own position and its item children's.
#[derive(Debug, Clone, Copy)]
pub struct Node {
    emitter: Emitter,
    node: NodeAlt,
    item: NodeAlt,
}

impl Node {
    /// The vector's own position.
    pub closed spec fn node(&self) -> NodeAlt {
        self.node
    }

    pub closed spec fn emitter(&self) -> Emitter {
        self.emitter
    }

    /// The item children's position, before an index is chosen.
    pub closed spec fn item_node(&self) -> NodeAlt {
        self.item
    }

    pub fn key(&self) -> (r: Key)
        ensures
            r@ == (self.node()@.0, self.node()@.1),
    {
        self.node.key()
    }

    /// The item at `index`: the item child's position with `index` recorded at the
    /// vector's depth.
    pub fn item(&self, index: AltIndex) -> (r: NodeAlt)
        requires
            self.node()@.0.1 < ALT_DEPTH_SIZE,
        ensures
            r@ == (self.item_node()@.0, self.item_node()@.1.update(self.node()@.0.1 as int, index), self.item_node()@.2),
    {
        self.item.alt(&self.node.consist(), index)
    }

    /// The items `0..len`.
    pub fn items(&self, len: usize) -> (r: Vec<NodeAlt>)
        requires
            self.node()@.0.1 < ALT_DEPTH_SIZE,
        ensures
            r.len() == len,
            forall|i: int| 0 <= i < len ==> #[trigger] r@[i]@ == (
                self.item_node()@.0,
                self.item_node()@.1.update(self.node()@.0.1 as int, i as u32),
                self.item_node()@.2,
            ),
    {
        let mut result: Vec<NodeAlt> = Vec::new();
        for index in 0..len
            invariant
                self.node()@.0.1 < ALT_DEPTH_SIZE,
                result.len() == index,
                forall|i: int| 0 <= i < index ==> #[trigger] result@[i]@ == (
                    self.item_node()@.0,
                    self.item_node()@.1.update(self.node()@.0.1 as int, i as u32),
                    self.item_node()@.2,
                ),
        {
            result.push(self.item(index as u32));
        }
        result
    }

    /// Emits a push of `item` through the push child.
    pub fn emit_push<M: NodeMessage>(&self, item: M::State) -> (r: Emission<M>)
        ensures
            r.mode == self.node()@.2,
            r.packet.key@ == (self.emitter().push@, self.node()@.1),
            forall|before: <M::State as DeepView>::V| #[trigger] r.packet.message.spec_apply(before) == item.deep_view(),
    {
        self.emitter.push.emit(&self.node.callback_mode(), &self.node.transient(), M::into_message(item))
    }

    /// Emits a pop through the pop child.
    pub fn emit_pop(&self) -> (r: Emission<()>)
        ensures
            r.mode == self.node()@.2,
            r.packet.key@ == (self.emitter().pop@, self.node()@.1),
    {
        self.emitter.pop.emit(&self.node.callback_mode(), &self.node.transient(), ())
    }

    /// Emits a length through the length child.
    pub fn emit_len(&self, len: AltIndex) -> (r: Emission<AltIndex>)
        ensures
            r.mode == self.node()@.2,
            r.packet.key@ == (self.emitter().len@, self.node()@.1),
            r.packet.message == len,
    {
        self.emitter.len.emit(&self.node.callback_mode(), &self.node.transient(), len)
    }
}

/// The item and the item's message that a vector message carries, if it is an item message:
/// what a vector hands on to the item's handler.
pub fn item_message<M: NodeMessage>(message: Message<M>) -> (r: Option<(AltIndex, M)>)
    ensures
        match message {
            Message::Item(index, m) => r == Some((index, m)),
            _ => r is None,
        },
{
    match message {
        Message::Item(index, m) => Some((index, m)),
        _ => None,
    }
}

/// The item at `index` of a vector that may be absent: how an item reads its state from
/// the vector it belongs to.
pub fn lookup_item<T>(state: Option<&Vec<T>>, index: AltIndex) -> (r: Option<&T>)
    ensures
        match state {
            Some(items) => if index < items.len() {
                r == Some(&items@[index as int])
            } else {
                r is None
            },
            None => r is None,
        },
{
    match state {
        Some(items) => {
            if (index as usize) < items.len() {
                Some(&items[index as usize])
            } else {
                None
            }
        },
        None => None,
    }
}

/// The item of a vector that may be absent that the transient of a node below it selects:
/// the index the transient records at the vector's collection level `depth`. This is how an
/// item reads its state from the vector's.
pub fn lookup_item_at<'a, T>(state: Option<&'a Vec<T>>, transient: &Transient, depth: AltDepth) -> (r: Option<&'a T>)
    requires
        depth@ < ALT_DEPTH_SIZE,
    ensures
        r == (match state {
            Some(items) => if transient@[depth@ as int] < items.len() {
                Some(&items@[transient@[depth@ as int] as int])
            } else {
                None
            },
            None => None,
        }),
{
    lookup_item(state, transient.index(depth))
}

/// The length of a vector that may be absent: how the length child reads its state.
pub fn lookup_len<T>(state: Option<&Vec<T>>) -> (r: Option<usize>)
    ensures
        match state {
            Some(items) => r == Some(items.len()),
            None => r is None,
        },
{
    match state {
        Some(items) => Some(items.len()),
        None => None,
    }
}

impl NewNode<Emitter> for Node {
    /// The vector node that emits through `emitter`, at `transient`, into `callback_mode`.
    fn new(emitter: &Emitter, callback_mode: CallbackMode, transient: Transient) -> (r: Node)
        ensures
            r.emitter() == *emitter,
            r.node()@ == (emitter.callback@, transient@, callback_mode),
            r.item_node()@ == (emitter.item@, transient@, callback_mode),
    {
        Node {
            node: NodeAlt::new(&emitter.callback, callback_mode, transient),
            item: NodeAlt::new(&emitter.item, callback_mode, transient),
            emitter: *emitter,
        }
    }
}

/// Popping undoes pushing.
pub proof fn law_pop_undoes_push<M: NodeMessage>(items: Seq<<M::State as DeepView>::V>, item: M::State)
    ensures
        spec_vec_apply::<M>(Message::Pop, spec_vec_apply::<M>(Message::Push(item), items)) == items,
{
    assert(items.push(item.deep_view()).drop_last() =~= items);
}

/// A push emitted through the push child appends the pushed state: the child's message sets
/// the state, the push wrapper turns it into an item by applying it to a default item, and
/// the vector appends that item.
pub proof fn law_emitted_push_appends<M: NodeMessage>(
    items: Seq<<M::State as DeepView>::V>,
    pushed: M::State,
    emitted: M,
    item: M::State,
)
    requires
        forall|before: <M::State as DeepView>::V| #[trigger] emitted.spec_apply(before) == pushed.deep_view(),
        item.deep_view() == emitted.spec_apply(M::spec_default_state()),
    ensures
        spec_vec_apply::<M>(Message::Push(item), items) == items.push(pushed.deep_view()),
{
}

/// A length message leaves exactly that many items, keeping the ones that were there.
pub proof fn law_len_sets_length<M: NodeMessage>(items: Seq<<M::State as DeepView>::V>, len: AltIndex)
    ensures
        spec_vec_apply::<M>(Message::Len(len), items).len() == len,
        forall|i: int| 0 <= i < len && i < items.len() ==> #[trigger] spec_vec_apply::<M>(Message::Len(len), items)[i] == items[i],
        forall|i: int| items.len() <= i < len ==> #[trigger] spec_vec_apply::<M>(Message::Len(len), items)[i] == M::spec_default_state(),
{
}

/// A message to an item outside the vector changes nothing.
pub proof fn law_item_out_of_range<M: NodeMessage>(items: Seq<<M::State as DeepView>::V>, index: AltIndex, message: M)
    requires
        items.len() <= index,
    ensures
        spec_vec_apply::<M>(Message::Item(index, message), items) == items,
{
}

/// A message to an item changes that item as the message says, and no other.
pub proof fn law_item_changes_only_its_item<M: NodeMessage>(items: Seq<<M::State as DeepView>::V>, index: AltIndex, message: M)
    requires
        index < items.len(),
    ensures
        spec_vec_apply::<M>(Message::Item(index, message), items).len() == items.len(),
        spec_vec_apply::<M>(Message::Item(index, message), items)[index as int] == message.spec_apply(items[index as int]),
        forall|i: int| 0 <= i < items.len() && i != index ==> #[trigger] spec_vec_apply::<M>(Message::Item(index, message), items)[i] == items[i],
{
}

/// A message emitted by the item at `index` of the vector node at `parent`, from the item
/// itself or from a node `offset` ids below it, is read back as a message to that item.
pub proof fn law_item_emission_routes_back(parent: KeyView, index: u32, offset: u32, alt_size: u32)
    requires
        key_alt_depth(parent) < ALT_DEPTH_SIZE,
        key_transient(parent).len() == ALT_DEPTH_SIZE,
        consist_access_fits(parent.0, ITEM_ID_DELTA, 1),
        consist_access_fits(consist_access(parent.0, ITEM_ID_DELTA, 1), offset, alt_size),
    ensures
        ({
            let item = consist_access(parent.0, ITEM_ID_DELTA, 1);
            let emitted = (
                consist_access(item, offset, alt_size),
                key_transient(parent).update(key_alt_depth(parent) as int, index),
            );
            &&& vec_route_defined(emitted, parent)
            &&& spec_vec_route(emitted, parent) == VecRouteView::Item(index, (item, key_transient(parent)))
        }),
{
}

/// A packet written for a message of the item at `index`, addressed with the item's key and
/// with `index` recorded once more at the item's own depth, is read back as a message to
/// that item.
pub proof fn law_item_packet_routes_back(parent: KeyView, index: u32)
    requires
        key_alt_depth(parent) + 1 < ALT_DEPTH_SIZE,
        key_transient(parent).len() == ALT_DEPTH_SIZE,
        consist_access_fits(parent.0, ITEM_ID_DELTA, 1),
    ensures
        ({
            let item = consist_access(parent.0, ITEM_ID_DELTA, 1);
            let item_key = (item, key_transient(parent).update(key_alt_depth(parent) as int, index));
            let written = (item_key.0, item_key.1.update(key_alt_depth(item_key) as int, index));
            &&& vec_route_defined(written, parent)
            &&& spec_vec_route(written, parent) == VecRouteView::Item(index, (item, key_transient(parent)))
        }),
{
}

/// A message that the item at `index` of a vector node emits, passed on to the vector,
/// is the vector's message to that item: the index the item's key records at the vector's
/// level is `index`.
pub proof fn law_item_emission_forwards_to_item<M: NodeMessage, C, F>(
    vector: ConsistView,
    transient: Seq<u32>,
    index: AltIndex,
    emitted: MessagePacketMessage<M>,
    r: MessagePacket<Message<M>, Forwarded<C, ItemWrap>, Forwarded<F, ItemWrap>>,
)
    requires
        vector.1 < ALT_DEPTH_SIZE,
        transient.len() == ALT_DEPTH_SIZE,
        key_transient(emitted.key@) == transient.update(vector.1 as int, index),
        forwards(vector.1, MessagePacket::<M, C, F>::Message(emitted), ItemWrap, r),
    ensures
        r matches MessagePacket::Message(n) && n.key@ == emitted.key@ && n.message == Message::Item(index, emitted.message),
{
}

/// A packet at the vector's own id, whatever its transient, is read as the vector's whole
/// state; in particular a packet with the vector's own key.
pub proof fn law_own_id_routes_to_state(packet: KeyView, parent: KeyView)
    requires
        key_id(packet) == key_id(parent),
    ensures
        vec_route_defined(packet, parent),
        vec_route_defined(parent, parent),
        spec_vec_route(packet, parent) == VecRouteView::State,
        spec_vec_route(parent, parent) == VecRouteView::State,
{
}

/// Growing a vector of `u64` with a length message fills it with zeros, after the items
/// that were there.
pub proof fn law_len_grows_with_zeros(items: Seq<u64>, len: AltIndex)
    ensures
        spec_vec_apply::<u64>(Message::Len(len), items).len() == len,
        forall|i: int| 0 <= i < len && i < items.len() ==> #[trigger] spec_vec_apply::<u64>(Message::Len(len), items)[i] == items[i],
        forall|i: int| items.len() <= i < len ==> #[trigger] spec_vec_apply::<u64>(Message::Len(len), items)[i] == 0u64,
{
}

/// What the children's messages become in the vector, as what they do to it: a push of a
/// message that sets the item's state to `pushed` appends `pushed`, a pop removes the last
/// item if there is one, a length message leaves `len` items, and an item's message goes
/// to the item it came from.
pub proof fn law_wraps_make_the_vector_messages<M: NodeMessage>(
    items: Seq<<M::State as DeepView>::V>,
    index: AltIndex,
    message: M,
    pushed: M::State,
    len: AltIndex,
    push: Message<M>,
    pop: Message<M>,
    length: Message<M>,
    item: Message<M>,
)
    requires
        forall|before: <M::State as DeepView>::V| #[trigger] message.spec_apply(before) == pushed.deep_view(),
        PushWrap.wraps(index, message, push),
        PopWrap.wraps(index, (), pop),
        LenWrap.wraps(index, len, length),
        ItemWrap.wraps(index, message, item),
    ensures
        spec_vec_apply::<M>(push, items) == items.push(pushed.deep_view()),
        items.len() > 0 ==> spec_vec_apply::<M>(pop, items) == items.drop_last(),
        items.len() == 0 ==> spec_vec_apply::<M>(pop, items) == items,
        spec_vec_apply::<M>(length, items).len() == len,
        index < items.len() ==> spec_vec_apply::<M>(item, items) == items.update(index as int, pushed.deep_view()),
        index >= items.len() ==> spec_vec_apply::<M>(item, items) == items,
{
}

/// A state message replaces the whole vector, whatever it held; a new vector is empty.
pub proof fn law_state_replaces_all<M: NodeMessage>(items: Seq<<M::State as DeepView>::V>, state: Vec<M::State>)
    ensures
        spec_vec_apply::<M>(Message::State(state), items) == state.deep_view(),
        spec_vec_apply::<M>(Message::State(state), items).len() == state.len(),
        <Message<M> as NodeMessage>::spec_default_state().len() == 0,
{
}

/// Messages emitted through the push, pop and length children of the vector node at
/// `parent` are read back as push, pop and length messages of that node.
pub proof fn law_child_emission_routes_back(parent: KeyView, transient: Seq<u32>)
    requires
        consist_access_fits(parent.0, ITEM_ID_DELTA, 1),
    ensures
        spec_vec_route((consist_access(parent.0, PUSH_ID_DELTA, 1), transient), parent) == VecRouteView::Push,
        spec_vec_route((consist_access(parent.0, POP_ID_DELTA, 1), transient), parent) == VecRouteView::Pop,
        spec_vec_route((consist_access(parent.0, LEN_ID_DELTA, 1), transient), parent)
            == VecRouteView::Len((consist_access(parent.0, LEN_ID_DELTA, 1), key_transient(parent))),
{
}

} // verus!
