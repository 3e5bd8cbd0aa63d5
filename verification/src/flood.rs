//! The rules of topology discovery by flooding.

use vstd::prelude::*;
use crate::action::ActionView;
use crate::forwarding::{forward_action, nack_action, DroneView};
use crate::network::{NodeId, Route};
use crate::packet::{
    FloodRequestView, FloodResponseView, NackType, NodeType, PacketTypeView, PacketView,
};

verus! {

/// The ids of a path trace, in order.
pub open spec fn trace_ids(trace: Seq<(NodeId, NodeType)>) -> Seq<NodeId> {
    trace.map_values(|entry: (NodeId, NodeType)| entry.0)
}

/// The request as the drone `id` passes it on: the drone has added itself to
/// the path trace.
pub open spec fn visited_by(request: FloodRequestView, id: NodeId) -> FloodRequestView {
    FloodRequestView { path_trace: request.path_trace.push((id, NodeType::Drone)), ..request }
}

/// The route of a flood response: the way the request came, backwards, with
/// the cursor at the start.
pub open spec fn response_route(request: FloodRequestView) -> Route {
    Route { hops: trace_ids(request.path_trace).reverse(), hop_index: 0 }
}

/// The flood response to `request`, ready to leave: it carries the request's
/// path trace, and its cursor is on the hop the request came from.
pub open spec fn response_packet(request: FloodRequestView, session_id: u64) -> PacketView {
    PacketView {
        pack_type: PacketTypeView::FloodResponse(
            FloodResponseView { flood_id: request.flood_id, path_trace: request.path_trace },
        ),
        routing_header: response_route(request).advanced(),
        session_id,
    }
}

/// How the response to `request` leaves the drone. A trace of fewer than two
/// nodes names nobody to answer to, and the drone says that the destination
/// is a drone.
pub open spec fn response_action(drone: DroneView, request: FloodRequestView, session_id: u64) -> ActionView {
    match response_route(request).next_hop() {
        None => nack_action(
            drone,
            NackType::DestinationIsDrone,
            response_route(request),
            session_id,
        ),
        Some(next_hop) => forward_action(drone, response_packet(request, session_id), next_hop),
    }
}

/// The drone can reach nobody but `from`.
pub open spec fn dead_end(drone: DroneView, from: NodeId) -> bool {
    drone.neighbors.len() == 1 && drone.neighbors.contains(from)
}

/// The drone answers the request itself: it has met this flood before, or it
/// can reach nobody but the node the request came from. `request` has a
/// trace that is not empty.
pub open spec fn answers(drone: DroneView, request: FloodRequestView) -> bool {
    drone.seen.contains((request.flood_id, request.initiator_id)) || dead_end(
        drone,
        request.path_trace.last().0,
    )
}

/// What the drone knows after it has dealt with `request`: a request with an
/// empty trace leaves no mark, any other flood counts as met from then on.
pub open spec fn after_request(drone: DroneView, request: FloodRequestView) -> DroneView {
    if request.path_trace.len() == 0 {
        drone
    } else {
        DroneView { seen: drone.seen.insert((request.flood_id, request.initiator_id)), ..drone }
    }
}

/// `plan` offers `packet` to each node of `targets` exactly once, in some
/// order, and does nothing else.
pub open spec fn broadcasts(plan: Seq<ActionView>, targets: Set<NodeId>, packet: PacketView) -> bool {
    exists|order: Seq<NodeId>|
        {
            &&& order.no_duplicates()
            &&& order.to_set() == targets
            &&& #[trigger] deliveries(order, packet) == plan
        }
}

/// One delivery of `packet` to each node of `order`, in that order.
pub open spec fn deliveries(order: Seq<NodeId>, packet: PacketView) -> Seq<ActionView> {
    order.map_values(|to: NodeId| ActionView::Deliver { to, packet })
}

/// `plan` is what the drone does with a flood request that came in a packet
/// of session `session_id` with the header `route`. A request with an empty
/// trace is ignored. Otherwise the drone adds itself to the trace; then it
/// either answers, or passes the request on to every neighbour but the one
/// it came from.
pub open spec fn flood_plan(drone: DroneView, request: FloodRequestView, route: Route, session_id: u64, plan: Seq<ActionView>) -> bool {
    if request.path_trace.len() == 0 {
        plan == Seq::<ActionView>::empty()
    } else if answers(drone, request) {
        plan == seq![response_action(drone, visited_by(request, drone.id), session_id)]
    } else {
        broadcasts(
            plan,
            drone.neighbors.remove(request.path_trace.last().0),
            PacketView {
                pack_type: PacketTypeView::FloodRequest(visited_by(request, drone.id)),
                routing_header: route,
                session_id,
            },
        )
    }
}

/// A drone that answers a request, and can reach the node it came from,
/// sends the answer to that node and does nothing else. The answer carries
/// the trace with the drone added, its route is that trace backwards, and
/// its cursor is on the node the request came from.
pub proof fn lemma_answer_goes_back(drone: DroneView, request: FloodRequestView, route: Route, session_id: u64)
    requires
        request.path_trace.len() > 0,
        answers(drone, request),
        drone.neighbors.contains(request.path_trace.last().0),
    ensures
        ({
            let from = request.path_trace.last().0;
            let answer = response_packet(visited_by(request, drone.id), session_id);
            &&& flood_plan(
                drone,
                request,
                route,
                session_id,
                seq![ActionView::Deliver { to: from, packet: answer }],
            )
            &&& answer.routing_header.hops == trace_ids(request.path_trace).push(
                drone.id,
            ).reverse()
            &&& answer.routing_header.hop_index == 1
            &&& answer.routing_header.current_hop() == Some(from)
            &&& answer.pack_type == PacketTypeView::FloodResponse(
                FloodResponseView {
                    flood_id: request.flood_id,
                    path_trace: request.path_trace.push((drone.id, NodeType::Drone)),
                },
            )
        }),
{
    let visited = visited_by(request, drone.id);
    assert(trace_ids(visited.path_trace) =~= trace_ids(request.path_trace).push(drone.id));
}

/// A drone that passes a request on offers it to every neighbour but the
/// one it came from, and never to that one.
pub proof fn lemma_request_is_not_sent_back(
    drone: DroneView,
    request: FloodRequestView,
    route: Route,
    session_id: u64,
    plan: Seq<ActionView>,
)
    requires
        request.path_trace.len() > 0,
        !answers(drone, request),
        flood_plan(drone, request, route, session_id, plan),
    ensures
        plan.len() == drone.neighbors.remove(request.path_trace.last().0).len(),
        forall|i: int|
            0 <= i < plan.len() ==> {
                &&& #[trigger] plan[i] is Deliver
                &&& plan[i]->to != request.path_trace.last().0
                &&& drone.neighbors.contains(plan[i]->to)
                &&& plan[i]->packet.pack_type == PacketTypeView::FloodRequest(
                    visited_by(request, drone.id),
                )
                &&& plan[i]->packet.routing_header == route
            },
        forall|node: NodeId|
            drone.neighbors.contains(node) && node != request.path_trace.last().0
                ==> exists|i: int| 0 <= i < plan.len() && (#[trigger] plan[i])->to == node,
{
    let from = request.path_trace.last().0;
    let packet = PacketView {
        pack_type: PacketTypeView::FloodRequest(visited_by(request, drone.id)),
        routing_header: route,
        session_id,
    };
    let order = choose|order: Seq<NodeId>|
        {
            &&& order.no_duplicates()
            &&& order.to_set() == drone.neighbors.remove(from)
            &&& #[trigger] deliveries(order, packet) == plan
        };
    order.unique_seq_to_set();
    assert forall|i: int| 0 <= i < plan.len() implies {
        &&& #[trigger] plan[i] is Deliver
        &&& plan[i]->to != from
        &&& drone.neighbors.contains(plan[i]->to)
    } by {
        assert(order.to_set().contains(order[i]));
    }
    assert forall|node: NodeId| drone.neighbors.contains(node) && node != from implies exists|
        i: int,
    |
        0 <= i < plan.len() && (#[trigger] plan[i])->to == node by {
        assert(order.to_set().contains(node));
        let i = choose|i: int| 0 <= i < order.len() && order[i] == node;
        assert(plan[i]->to == node);
    }
}

} // verus!
