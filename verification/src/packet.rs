//! The packets that travel between nodes, and their mathematical views.

use vstd::prelude::*;
use crate::network::{NodeId, Route, SourceRoutingHeader};

verus! {

/// What kind of participant a node is.
#[derive(Debug, Clone, Copy, PartialEq, Eq, Hash)]
pub enum NodeType {
    Client,
    Drone,
    Server,
}

/// One piece of a message.
#[derive(Debug, Clone, Copy, PartialEq, Eq)]
pub struct Fragment {
    pub fragment_index: u64,
    pub total_n_fragments: u64,
    pub length: u8,
    pub data: [u8; 128],
}

/// Acknowledges one fragment.
#[derive(Debug, Clone, Copy, PartialEq, Eq)]
pub struct Ack {
    pub fragment_index: u64,
}

/// Why a packet could not go on.
#[derive(Debug, Clone, Copy, PartialEq, Eq)]
pub enum NackType {
    ErrorInRouting(NodeId),
    DestinationIsDrone,
    Dropped,
    UnexpectedRecipient(NodeId),
}

/// Tells the sender that a packet could not go on.
#[derive(Debug, Clone, Copy, PartialEq, Eq)]
pub struct Nack {
    pub fragment_index: u64,
    pub nack_type: NackType,
}

/// Asks every node it reaches to describe the way it came.
#[derive(Debug, Clone, PartialEq, Eq)]
pub struct FloodRequest {
    pub flood_id: u64,
    pub initiator_id: NodeId,
    pub path_trace: Vec<(NodeId, NodeType)>,
}

/// Carries a discovered path back to the initiator of a flood.
#[derive(Debug, Clone, PartialEq, Eq)]
pub struct FloodResponse {
    pub flood_id: u64,
    pub path_trace: Vec<(NodeId, NodeType)>,
}

/// The five kinds of packet.
#[derive(Debug, Clone, PartialEq, Eq)]
pub enum PacketType {
    MsgFragment(Fragment),
    Ack(Ack),
    Nack(Nack),
    FloodRequest(FloodRequest),
    FloodResponse(FloodResponse),
}

/// A packet: its content, its route and the session it belongs to.
#[derive(Debug, Clone, PartialEq, Eq)]
pub struct Packet {
    pub pack_type: PacketType,
    pub routing_header: SourceRoutingHeader,
    pub session_id: u64,
}

/// A flood request as a mathematical value.
pub struct FloodRequestView {
    pub flood_id: u64,
    pub initiator_id: NodeId,
    pub path_trace: Seq<(NodeId, NodeType)>,
}

/// A flood response as a mathematical value.
pub struct FloodResponseView {
    pub flood_id: u64,
    pub path_trace: Seq<(NodeId, NodeType)>,
}

/// The content of a packet as a mathematical value.
pub enum PacketTypeView {
    MsgFragment(Fragment),
    Ack(Ack),
    Nack(Nack),
    FloodRequest(FloodRequestView),
    FloodResponse(FloodResponseView),
}

/// A packet as a mathematical value.
pub struct PacketView {
    pub pack_type: PacketTypeView,
    pub routing_header: Route,
    pub session_id: u64,
}

impl View for FloodRequest {
    type V = FloodRequestView;

    open spec fn view(&self) -> FloodRequestView {
        FloodRequestView {
            flood_id: self.flood_id,
            initiator_id: self.initiator_id,
            path_trace: self.path_trace@,
        }
    }
}

impl View for FloodResponse {
    type V = FloodResponseView;

    open spec fn view(&self) -> FloodResponseView {
        FloodResponseView { flood_id: self.flood_id, path_trace: self.path_trace@ }
    }
}

impl View for PacketType {
    type V = PacketTypeView;

    open spec fn view(&self) -> PacketTypeView {
        match *self {
            PacketType::MsgFragment(fragment) => PacketTypeView::MsgFragment(fragment),
            PacketType::Ack(ack) => PacketTypeView::Ack(ack),
            PacketType::Nack(nack) => PacketTypeView::Nack(nack),
            PacketType::FloodRequest(request) => PacketTypeView::FloodRequest(request@),
            PacketType::FloodResponse(response) => PacketTypeView::FloodResponse(response@),
        }
    }
}

impl View for Packet {
    type V = PacketView;

    open spec fn view(&self) -> PacketView {
        PacketView {
            pack_type: self.pack_type@,
            routing_header: self.routing_header@,
            session_id: self.session_id,
        }
    }
}

/// A path trace with the same entries.
pub fn duplicate_trace(trace: &Vec<(NodeId, NodeType)>) -> (copy: Vec<(NodeId, NodeType)>)
    ensures
        copy@ == trace@,
{
    let mut copy: Vec<(NodeId, NodeType)> = Vec::new();
    let mut i: usize = 0;
    while i < trace.len()
        invariant
            i <= trace@.len(),
            copy@ == trace@.subrange(0, i as int),
        decreases trace@.len() - i,
    {
        copy.push(trace[i]);
        i = i + 1;
    }
    copy
}

impl FloodRequest {
    /// A request with the same content.
    pub fn duplicate(&self) -> (copy: Self)
        ensures
            copy@ == self@,
    {
        FloodRequest {
            flood_id: self.flood_id,
            initiator_id: self.initiator_id,
            path_trace: duplicate_trace(&self.path_trace),
        }
    }
}

impl FloodResponse {
    /// A response with the same content.
    pub fn duplicate(&self) -> (copy: Self)
        ensures
            copy@ == self@,
    {
        FloodResponse { flood_id: self.flood_id, path_trace: duplicate_trace(&self.path_trace) }
    }
}

impl PacketType {
    /// A content with the same value.
    pub fn duplicate(&self) -> (copy: Self)
        ensures
            copy@ == self@,
    {
        match self {
            PacketType::MsgFragment(fragment) => PacketType::MsgFragment(*fragment),
            PacketType::Ack(ack) => PacketType::Ack(*ack),
            PacketType::Nack(nack) => PacketType::Nack(*nack),
            PacketType::FloodRequest(request) => PacketType::FloodRequest(request.duplicate()),
            PacketType::FloodResponse(response) => PacketType::FloodResponse(response.duplicate()),
        }
    }
}

impl Packet {
    /// A packet with the same content, route and session.
    pub fn duplicate(&self) -> (copy: Self)
        ensures
            copy@ == self@,
    {
        Packet {
            pack_type: self.pack_type.duplicate(),
            routing_header: self.routing_header.duplicate(),
            session_id: self.session_id,
        }
    }

    pub fn new_fragment(routing_header: SourceRoutingHeader, session_id: u64, fragment: Fragment) -> (packet: Self)
        ensures
            packet@ == (PacketView {
                pack_type: PacketTypeView::MsgFragment(fragment),
                routing_header: routing_header@,
                session_id,
            }),
    {
        Packet { pack_type: PacketType::MsgFragment(fragment), routing_header, session_id }
    }

    pub fn new_ack(routing_header: SourceRoutingHeader, session_id: u64, fragment_index: u64) -> (packet: Self)
        ensures
            packet@ == (PacketView {
                pack_type: PacketTypeView::Ack(Ack { fragment_index }),
                routing_header: routing_header@,
                session_id,
            }),
    {
        Packet { pack_type: PacketType::Ack(Ack { fragment_index }), routing_header, session_id }
    }

    pub fn new_nack(routing_header: SourceRoutingHeader, session_id: u64, nack: Nack) -> (packet: Self)
        ensures
            packet@ == (PacketView {
                pack_type: PacketTypeView::Nack(nack),
                routing_header: routing_header@,
                session_id,
            }),
    {
        Packet { pack_type: PacketType::Nack(nack), routing_header, session_id }
    }

    pub fn new_flood_request(routing_header: SourceRoutingHeader, session_id: u64, flood_request: FloodRequest) -> (packet: Self)
        ensures
            packet@ == (PacketView {
                pack_type: PacketTypeView::FloodRequest(flood_request@),
                routing_header: routing_header@,
                session_id,
            }),
    {
        Packet { pack_type: PacketType::FloodRequest(flood_request), routing_header, session_id }
    }

    pub fn new_flood_response(routing_header: SourceRoutingHeader, session_id: u64, flood_response: FloodResponse) -> (packet: Self)
        ensures
            packet@ == (PacketView {
                pack_type: PacketTypeView::FloodResponse(flood_response@),
                routing_header: routing_header@,
                session_id,
            }),
    {
        Packet { pack_type: PacketType::FloodResponse(flood_response), routing_header, session_id }
    }
}

} // verus!
