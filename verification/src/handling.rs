//! What a drone does with each packet that reaches it, and what the
//! controller gets to hear of it.

use vstd::prelude::*;
use crossbeam_channel::Sender;
use crate::action::{reports_all, ActionView};
use crate::controller::{DroneCommand, DroneEventView};
use crate::flood::{after_request, answers, flood_plan};
use crate::forwarding::{crash_plan, forwarding_plan, fragment_plan, DroneView};
use crate::network::NodeId;
use crate::packet::{FloodRequestView, Packet, PacketTypeView, PacketView};

verus! {

/// `plan` is what the drone does with `packet`. A flood request goes by the
/// rules of flooding, a fragment by those of fragments, where `lost` says
/// whether the link loses it, and anything else is forwarded.
pub open spec fn packet_plan(drone: DroneView, packet: PacketView, lost: bool, plan: Seq<ActionView>) -> bool {
    match packet.pack_type {
        PacketTypeView::FloodRequest(request) => flood_plan(
            drone,
            request,
            packet.routing_header,
            packet.session_id,
            plan,
        ),
        PacketTypeView::MsgFragment(_) => plan == fragment_plan(drone, packet, lost),
        _ => plan == forwarding_plan(drone, packet),
    }
}

/// What the drone knows after it has dealt with `packet`: only a flood
/// request leaves a mark.
pub open spec fn after_packet(drone: DroneView, packet: PacketView) -> DroneView {
    match packet.pack_type {
        PacketTypeView::FloodRequest(request) => after_request(drone, request),
        _ => drone,
    }
}

/// `events` is what the controller is owed once the drone has dealt with
/// `packet`, whatever the neighbours' channels did with what they were
/// offered.
pub open spec fn packet_outcome(drone: DroneView, packet: PacketView, lost: bool, events: Seq<DroneEventView>) -> bool {
    exists|plan: Seq<ActionView>|
        packet_plan(drone, packet, lost, plan) && #[trigger] reports_all(plan, events)
}

/// What a crashing drone does with the packets `drained` from its queue,
/// one after the other.
pub open spec fn drain_plan(drone: DroneView, drained: Seq<PacketView>) -> Seq<ActionView>
    decreases drained.len(),
{
    if drained.len() == 0 {
        Seq::empty()
    } else {
        drain_plan(drone, drained.drop_last()) + crash_plan(drone, drained.last())
    }
}

/// `events` is what the controller is owed once a crashing drone has emptied
/// its queue, whatever was queued.
pub open spec fn crash_outcome(drone: DroneView, events: Seq<DroneEventView>) -> bool {
    exists|drained: Seq<PacketView>| #[trigger] reports_all(drain_plan(drone, drained), events)
}

/// The channels to the neighbours once `command` has been obeyed. A
/// neighbour is added only if none of that id is known, and keeps the channel
/// it has otherwise; one that is not known is removed without effect.
pub open spec fn links_after(links: Map<NodeId, Sender<Packet>>, command: DroneCommand) -> Map<
    NodeId,
    Sender<Packet>,
> {
    match command {
        DroneCommand::AddSender(node, sender) => if links.contains_key(node) {
            links
        } else {
            links.insert(node, sender)
        },
        DroneCommand::RemoveSender(node) => links.remove(node),
        DroneCommand::Crash => links,
    }
}

/// `events` is what the controller is owed once the drone has obeyed
/// `command`: for a crash what is owed for emptying the queue, otherwise
/// nothing.
pub open spec fn command_outcome(drone: DroneView, command: DroneCommand, events: Seq<DroneEventView>) -> bool {
    if command is Crash {
        crash_outcome(drone, events)
    } else {
        events.len() == 0
    }
}

/// What is owed for two plans carried out one after the other is what is
/// owed for the first, followed by what is owed for the second.
pub proof fn lemma_reports_all_concat(
    first: Seq<ActionView>,
    first_events: Seq<DroneEventView>,
    second: Seq<ActionView>,
    second_events: Seq<DroneEventView>,
)
    requires
        reports_all(first, first_events),
        reports_all(second, second_events),
    ensures
        reports_all(first + second, first_events + second_events),
{
}

/// Dealing with a packet never makes a drone forget a flood, and changes
/// neither who it is nor whom it can reach.
pub proof fn lemma_floods_are_remembered(drone: DroneView, packet: PacketView)
    ensures
        drone.seen.subset_of(after_packet(drone, packet).seen),
        after_packet(drone, packet).id == drone.id,
        after_packet(drone, packet).neighbors == drone.neighbors,
{
}

/// A drone that has dealt with a request of some flood answers every later
/// request of that flood itself, whatever way it came: it passes none on.
pub proof fn lemma_flood_is_passed_on_once(
    drone: DroneView,
    first: FloodRequestView,
    later: FloodRequestView,
)
    requires
        first.path_trace.len() > 0,
        later.flood_id == first.flood_id,
        later.initiator_id == first.initiator_id,
    ensures
        answers(after_request(drone, first), later),
{
}

} // verus!
