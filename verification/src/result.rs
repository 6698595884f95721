//! The error of reading a message from a packet.

use vstd::prelude::*;
use crate::packet::{IdDelta, Packet, PacketView};

verus! {

/// A packet that could not be read as a message, with where reading stopped and why.
#[derive(Debug, Clone)]
pub struct PacketError {
    packet: Packet,
    id_delta: Option<IdDelta>,
    depth: Option<usize>,
    message: String,
}

/// Mathematical view of a packet error: (packet, id delta, depth, message text).
pub type PacketErrorView = (PacketView, Option<u32>, Option<usize>, Seq<char>);

impl View for PacketError {
    type V = PacketErrorView;

    closed spec fn view(&self) -> PacketErrorView {
        (self.packet@, self.id_delta, self.depth, self.message@)
    }
}

impl PacketError {
    pub fn new(packet: Packet, id_delta: Option<IdDelta>, depth: Option<usize>, message: &str) -> (r: PacketError)
        ensures
            r@ == (packet@, id_delta, depth, message@),
    {
        PacketError { packet, id_delta, depth, message: message.to_owned() }
    }

    /// The packet that could not be read.
    pub fn packet(&self) -> (r: &Packet)
        ensures
            r@ == self@.0,
    {
        &self.packet
    }

    /// The id delta at which reading stopped, if known.
    pub fn id_delta(&self) -> (r: Option<IdDelta>)
        ensures
            r == self@.1,
    {
        self.id_delta
    }

    /// The depth at which reading stopped, if known.
    pub fn depth(&self) -> (r: Option<usize>)
        ensures
            r == self@.2,
    {
        self.depth
    }

    /// Why reading stopped.
    pub fn message(&self) -> (r: &str)
        ensures
            r@ == self@.3,
    {
        self.message.as_str()
    }
}

} // verus!
