//! The rules by which a drone passes a packet on, or turns it back.

use vstd::prelude::*;
use crate::action::ActionView;
use crate::controller::DroneEventView;
use crate::nack::{nack_packet, return_path};
use crate::network::{NodeId, Route};
use crate::packet::{Nack, NackType, PacketTypeView, PacketView};

verus! {

/// What a drone knows: who it is, whom it can reach, and which floods it has
/// met, each named by its id and its initiator.
pub struct DroneView {
    pub id: NodeId,
    pub neighbors: Set<NodeId>,
    pub seen: Set<(u64, NodeId)>,
}

/// The packet with its cursor moved one hop on.
pub open spec fn advanced(packet: PacketView) -> PacketView {
    PacketView { routing_header: packet.routing_header.advanced(), ..packet }
}

/// How a negative acknowledgement leaves the drone. It is raised on a packet
/// of session `session_id` with the forward route `route`. Where its way
/// back names a next hop and that hop is a neighbour, it is delivered there;
/// otherwise it has nowhere to go and is handed to the controller.
pub open spec fn nack_action(drone: DroneView, nack_type: NackType, route: Route, session_id: u64) -> ActionView {
    let nack = nack_packet(route, nack_type, session_id, drone.id);
    match nack.routing_header.current_hop() {
        Some(hop) if drone.neighbors.contains(hop) => ActionView::Deliver { to: hop, packet: nack },
        _ => ActionView::Notify(DroneEventView::ControllerShortcut(nack)),
    }
}

/// How a packet ready to leave for `next_hop` leaves the drone: delivered
/// there if that is a neighbour, otherwise turned back as an error in
/// routing.
pub open spec fn forward_action(drone: DroneView, packet: PacketView, next_hop: NodeId) -> ActionView {
    if drone.neighbors.contains(next_hop) {
        ActionView::Deliver { to: next_hop, packet }
    } else {
        nack_action(
            drone,
            NackType::ErrorInRouting(next_hop),
            packet.routing_header,
            packet.session_id,
        )
    }
}

/// The packet is addressed to the drone: the hop under its cursor is the
/// drone itself.
pub open spec fn addressed_to(drone: DroneView, route: Route) -> bool {
    route.current_hop() == Some(drone.id)
}

/// What the drone does with a packet that is not addressed to it. With no
/// hop under the cursor nothing can be done; otherwise the sender is told
/// that the packet reached an unexpected recipient.
pub open spec fn rejection(drone: DroneView, route: Route, session_id: u64) -> Seq<ActionView> {
    match route.current_hop() {
        None => Seq::empty(),
        Some(hop) => seq![
            nack_action(drone, NackType::UnexpectedRecipient(hop), route, session_id),
        ],
    }
}

/// What the drone does with a packet that is addressed to it and is to go
/// on: with no hop left the sender is told that the destination is a drone,
/// otherwise the packet moves on to the next hop.
pub open spec fn onward(drone: DroneView, packet: PacketView) -> ActionView {
    match packet.routing_header.next_hop() {
        None => nack_action(
            drone,
            NackType::DestinationIsDrone,
            packet.routing_header,
            packet.session_id,
        ),
        Some(next_hop) => forward_action(drone, advanced(packet), next_hop),
    }
}

/// What the drone does with an acknowledgement, a negative acknowledgement
/// or a flood response.
pub open spec fn forwarding_plan(drone: DroneView, packet: PacketView) -> Seq<ActionView> {
    if addressed_to(drone, packet.routing_header) {
        seq![onward(drone, packet)]
    } else {
        rejection(drone, packet.routing_header, packet.session_id)
    }
}

/// What the drone does with a fragment. `lost` says whether the link loses
/// it. A lost fragment is reported as dropped, as it arrived, and the hop
/// before the drone is told so.
pub open spec fn fragment_plan(drone: DroneView, packet: PacketView, lost: bool) -> Seq<ActionView> {
    if !addressed_to(drone, packet.routing_header) {
        rejection(drone, packet.routing_header, packet.session_id)
    } else if lost {
        seq![
            ActionView::Notify(DroneEventView::PacketDropped(packet)),
            nack_action(
                drone,
                NackType::Dropped,
                packet.routing_header.advanced(),
                packet.session_id,
            ),
        ]
    } else {
        seq![onward(drone, packet)]
    }
}

/// What a crashing drone does with a packet that was still queued. A
/// fragment or a flood request is lost: its sender is told that the route is
/// broken at this drone, and the loss is reported. Anything else goes on as
/// it would have.
pub open spec fn crash_plan(drone: DroneView, packet: PacketView) -> Seq<ActionView> {
    if packet.pack_type is MsgFragment || packet.pack_type is FloodRequest {
        seq![
            nack_action(
                drone,
                NackType::ErrorInRouting(drone.id),
                packet.routing_header,
                packet.session_id,
            ),
            ActionView::Notify(DroneEventView::PacketDropped(packet)),
        ]
    } else {
        forwarding_plan(drone, packet)
    }
}

/// The packet with its cursor moved `count` hops on.
pub open spec fn advanced_by(packet: PacketView, count: nat) -> PacketView {
    PacketView {
        routing_header: Route {
            hop_index: packet.routing_header.hop_index + count,
            ..packet.routing_header
        },
        ..packet
    }
}

/// The packet that leaves the last of `drones`, where `packet` enters the
/// first, each drone hands what it forwards to the next, and no link loses
/// anything; nothing where one of them does not forward it.
pub open spec fn relayed_through(drones: Seq<DroneView>, packet: PacketView) -> Option<PacketView>
    decreases drones.len(),
{
    if drones.len() == 0 {
        Some(packet)
    } else {
        let plan = fragment_plan(drones[0], packet, false);
        if plan.len() == 1 && plan[0] is Deliver && plan[0]->packet.pack_type is MsgFragment {
            relayed_through(drones.drop_first(), plan[0]->packet)
        } else {
            None
        }
    }
}

/// A negative acknowledgement always carries the cursor 1 and the fragment
/// index 0. It is delivered exactly where its way back names a next hop that
/// is a neighbour, and then to that hop; otherwise it goes to the controller
/// as a shortcut.
pub proof fn lemma_nack_round_trip(drone: DroneView, nack_type: NackType, route: Route, session_id: u64)
    ensures
        ({
            let nack = nack_packet(route, nack_type, session_id, drone.id);
            let path = return_path(route, nack_type, drone.id);
            &&& nack.routing_header.hop_index == 1
            &&& nack.pack_type == PacketTypeView::Nack(Nack { fragment_index: 0, nack_type })
            &&& nack.session_id == session_id
            &&& if path.len() >= 2 && drone.neighbors.contains(path[1]) {
                &&& nack_action(drone, nack_type, route, session_id) == (ActionView::Deliver {
                    to: path[1],
                    packet: nack,
                })
                &&& nack.routing_header.current_hop() == Some(path[1])
            } else {
                nack_action(drone, nack_type, route, session_id) == ActionView::Notify(
                    DroneEventView::ControllerShortcut(nack),
                )
            }
        }),
{
}

/// Once a packet with a next hop has been moved on, its cursor lies inside
/// its path: a packet is never forwarded with a cursor out of bounds.
pub proof fn lemma_advanced_cursor_is_valid(packet: PacketView)
    requires
        packet.routing_header.next_hop() is Some,
    ensures
        advanced(packet).routing_header.valid_hop_index(),
        advanced(packet).routing_header.current_hop() == packet.routing_header.next_hop(),
{
}

/// A fragment that is addressed to the drone, is not lost and has a
/// neighbour as its next hop goes to that neighbour and nowhere else, with
/// the cursor one hop on and nothing else changed.
pub proof fn lemma_fragment_forwarded(drone: DroneView, packet: PacketView, next_hop: NodeId)
    requires
        addressed_to(drone, packet.routing_header),
        packet.routing_header.next_hop() == Some(next_hop),
        drone.neighbors.contains(next_hop),
    ensures
        fragment_plan(drone, packet, false) == seq![
            ActionView::Deliver { to: next_hop, packet: advanced_by(packet, 1) },
        ],
        forwarding_plan(drone, packet) == fragment_plan(drone, packet, false),
{
}

/// A fragment that a chain of drones hands on from one to the next, with no
/// link losing it, leaves the chain with the same content, session and hops,
/// and with its cursor moved on by the number of drones.
pub proof fn lemma_chain_keeps_fragment(drones: Seq<DroneView>, packet: PacketView)
    requires
        packet.pack_type is MsgFragment,
        relayed_through(drones, packet) is Some,
    ensures
        relayed_through(drones, packet) == Some(advanced_by(packet, drones.len())),
    decreases drones.len(),
{
    if drones.len() > 0 {
        let plan = fragment_plan(drones[0], packet, false);
        lemma_chain_keeps_fragment(drones.drop_first(), plan[0]->packet);
    }
}

/// A fragment that is addressed to the drone and that the link loses is
/// reported as dropped, just as it arrived, and exactly one negative
/// acknowledgement of kind `Dropped` is raised. Its way back starts at the
/// drone; where the hop before the drone is a neighbour, it is delivered
/// there.
pub proof fn lemma_lost_fragment(drone: DroneView, packet: PacketView)
    requires
        addressed_to(drone, packet.routing_header),
    ensures
        ({
            let plan = fragment_plan(drone, packet, true);
            let route = packet.routing_header;
            let nack = PacketView {
                pack_type: PacketTypeView::Nack(
                    Nack { fragment_index: 0, nack_type: NackType::Dropped },
                ),
                routing_header: Route {
                    hops: route.hops.subrange(0, route.hop_index as int + 1).reverse(),
                    hop_index: 1,
                },
                session_id: packet.session_id,
            };
            &&& plan.len() == 2
            &&& plan[0] == ActionView::Notify(DroneEventView::PacketDropped(packet))
            &&& nack.routing_header.hops[0] == drone.id
            &&& if route.hop_index >= 1 && drone.neighbors.contains(
                route.hops[route.hop_index - 1],
            ) {
                plan[1] == (ActionView::Deliver {
                    to: route.hops[route.hop_index - 1],
                    packet: nack,
                })
            } else {
                plan[1] == ActionView::Notify(DroneEventView::ControllerShortcut(nack))
            }
        }),
{
    let route = packet.routing_header;
    assert(return_path(route.advanced(), NackType::Dropped, drone.id) =~= route.hops.subrange(
        0,
        route.hop_index as int + 1,
    ).reverse());
}

/// A packet whose cursor is on another node than the drone is never passed
/// on. Exactly one negative acknowledgement is raised, of kind
/// `UnexpectedRecipient` with the node the packet was addressed to; its way
/// back is the traversed path in the opposite order, with the drone in the
/// place of that node.
pub proof fn lemma_unexpected_recipient(drone: DroneView, packet: PacketView, lost: bool, hop: NodeId)
    requires
        packet.routing_header.current_hop() == Some(hop),
        hop != drone.id,
    ensures
        ({
            let route = packet.routing_header;
            let nack = PacketView {
                pack_type: PacketTypeView::Nack(
                    Nack { fragment_index: 0, nack_type: NackType::UnexpectedRecipient(hop) },
                ),
                routing_header: Route {
                    hops: route.hops.subrange(0, route.hop_index as int).push(
                        drone.id,
                    ).reverse(),
                    hop_index: 1,
                },
                session_id: packet.session_id,
            };
            &&& fragment_plan(drone, packet, lost) == forwarding_plan(drone, packet)
            &&& forwarding_plan(drone, packet) == seq![
                nack_action(
                    drone,
                    NackType::UnexpectedRecipient(hop),
                    route,
                    packet.session_id,
                ),
            ]
            &&& nack_packet(
                route,
                NackType::UnexpectedRecipient(hop),
                packet.session_id,
                drone.id,
            ) == nack
            &&& if route.hop_index >= 1 && drone.neighbors.contains(
                route.hops[route.hop_index - 1],
            ) {
                forwarding_plan(drone, packet)[0] == (ActionView::Deliver {
                    to: route.hops[route.hop_index - 1],
                    packet: nack,
                })
            } else {
                forwarding_plan(drone, packet)[0] == ActionView::Notify(
                    DroneEventView::ControllerShortcut(nack),
                )
            }
        }),
{
    let route = packet.routing_header;
    assert(return_path(route, NackType::UnexpectedRecipient(hop), drone.id)
        =~= route.hops.subrange(0, route.hop_index as int).push(drone.id).reverse());
}

/// A packet that is addressed to the drone, that the link does not lose and
/// that names no hop after the drone is never passed on. Exactly one
/// negative acknowledgement is raised, of kind `DestinationIsDrone`.
pub proof fn lemma_destination_is_drone(drone: DroneView, packet: PacketView)
    requires
        addressed_to(drone, packet.routing_header),
        packet.routing_header.next_hop() is None,
    ensures
        fragment_plan(drone, packet, false) == forwarding_plan(drone, packet),
        forwarding_plan(drone, packet) == seq![
            nack_action(
                drone,
                NackType::DestinationIsDrone,
                packet.routing_header,
                packet.session_id,
            ),
        ],
        nack_packet(
            packet.routing_header,
            NackType::DestinationIsDrone,
            packet.session_id,
            drone.id,
        ).routing_header.hops == packet.routing_header.hops.reverse(),
{
    assert(return_path(packet.routing_header, NackType::DestinationIsDrone, drone.id)
        =~= packet.routing_header.hops.reverse());
}

/// A packet that is addressed to the drone, that the link does not lose and
/// whose next hop is no neighbour is never passed on. Exactly one negative
/// acknowledgement is raised, of kind `ErrorInRouting` with that hop; its
/// way back starts at the drone.
pub proof fn lemma_error_in_routing(drone: DroneView, packet: PacketView, next_hop: NodeId)
    requires
        addressed_to(drone, packet.routing_header),
        packet.routing_header.next_hop() == Some(next_hop),
        !drone.neighbors.contains(next_hop),
    ensures
        fragment_plan(drone, packet, false) == forwarding_plan(drone, packet),
        forwarding_plan(drone, packet) == seq![
            nack_action(
                drone,
                NackType::ErrorInRouting(next_hop),
                packet.routing_header.advanced(),
                packet.session_id,
            ),
        ],
        nack_packet(
            packet.routing_header.advanced(),
            NackType::ErrorInRouting(next_hop),
            packet.session_id,
            drone.id,
        ).routing_header.hops == packet.routing_header.hops.subrange(
            0,
            packet.routing_header.hop_index as int + 1,
        ).reverse(),
{
    assert(return_path(
        packet.routing_header.advanced(),
        NackType::ErrorInRouting(next_hop),
        drone.id,
    ) =~= packet.routing_header.hops.subrange(0, packet.routing_header.hop_index as int + 1).reverse());
}

} // verus!
