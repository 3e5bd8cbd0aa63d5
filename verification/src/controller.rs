//! What a drone tells the controller, and what the controller tells a drone.

use vstd::prelude::*;
use crossbeam_channel::Sender;
use crate::network::NodeId;
use crate::packet::{Packet, PacketType, PacketView};

verus! {

/// What a drone reports to the controller.
#[derive(Debug, Clone, PartialEq, Eq)]
pub enum DroneEvent {
    /// The packet was handed to the next hop.
    PacketSent(Packet),
    /// The packet was lost here.
    PacketDropped(Packet),
    /// The packet could not take its route; the controller has to carry it.
    ControllerShortcut(Packet),
}

/// An event as a mathematical value.
pub enum DroneEventView {
    PacketSent(PacketView),
    PacketDropped(PacketView),
    ControllerShortcut(PacketView),
}

impl View for DroneEvent {
    type V = DroneEventView;

    open spec fn view(&self) -> DroneEventView {
        match *self {
            DroneEvent::PacketSent(packet) => DroneEventView::PacketSent(packet@),
            DroneEvent::PacketDropped(packet) => DroneEventView::PacketDropped(packet@),
            DroneEvent::ControllerShortcut(packet) => DroneEventView::ControllerShortcut(packet@),
        }
    }
}

/// What the controller asks of a drone.
#[derive(Debug)]
pub enum DroneCommand {
    /// Connect to a neighbour, unless one of that id is connected already.
    AddSender(NodeId, Sender<Packet>),
    /// Disconnect from a neighbour.
    RemoveSender(NodeId),
    /// Stop for good, after what is queued has been dealt with.
    Crash,
}

/// What a drone is handed in one turn: a command of the controller, or a
/// packet together with the lot drawn for it, which says whether the link
/// loses the packet.
#[derive(Debug)]
pub enum Input {
    Command(DroneCommand),
    Packet(Packet, bool),
}

/// The event owed to the controller when a neighbour's channel did not take
/// the packet: a fragment counts as lost, anything else is handed to the
/// controller.
pub open spec fn failure_event(packet: PacketView) -> DroneEventView {
    if packet.pack_type is MsgFragment {
        DroneEventView::PacketDropped(packet)
    } else {
        DroneEventView::ControllerShortcut(packet)
    }
}

/// The event owed to the controller after a delivery was tried.
pub open spec fn delivery_event(packet: PacketView, taken: bool) -> DroneEventView {
    if taken {
        DroneEventView::PacketSent(packet)
    } else {
        failure_event(packet)
    }
}

/// The views of a list of events, in order.
pub open spec fn event_views(events: Seq<DroneEvent>) -> Seq<DroneEventView> {
    events.map_values(|event: DroneEvent| event@)
}

impl DroneEvent {
    /// An event with the same content.
    pub fn duplicate(&self) -> (copy: Self)
        ensures
            copy@ == self@,
    {
        match self {
            DroneEvent::PacketSent(packet) => DroneEvent::PacketSent(packet.duplicate()),
            DroneEvent::PacketDropped(packet) => DroneEvent::PacketDropped(packet.duplicate()),
            DroneEvent::ControllerShortcut(packet) => DroneEvent::ControllerShortcut(
                packet.duplicate(),
            ),
        }
    }

    /// The event for a delivery that was tried: `PacketSent` where the
    /// channel took the packet; otherwise `PacketDropped` for a fragment and
    /// `ControllerShortcut` for any other packet.
    pub fn for_delivery(packet: Packet, taken: bool) -> (event: Self)
        ensures
            event@ == delivery_event(packet@, taken),
    {
        if taken {
            DroneEvent::PacketSent(packet)
        } else {
            match packet.pack_type {
                PacketType::MsgFragment(_) => DroneEvent::PacketDropped(packet),
                _ => DroneEvent::ControllerShortcut(packet),
            }
        }
    }
}

} // verus!
