//! The drone: a relay node that forwards source-routed packets, answers for
//! what it cannot forward, and takes part in topology discovery.
//!
//! A drone works in two stages. It first decides: from what it knows and the
//! packet in hand it draws up a list of steps, each a delivery to a
//! neighbour or a report to the controller. That stage touches no channel,
//! and every decision is fixed by the rules in [`crate::forwarding`] and
//! [`crate::flood`]. It then carries the steps out on its channels and
//! reports each to the controller.
//!
//! Whether a link loses a fragment is not for the drone to say: whoever runs
//! it draws the lot and hands in the outcome.

use vstd::prelude::*;
use vstd::std_specs::hash::group_hash_axioms;
use vstd::std_specs::iter::IteratorSpec;
use std::collections::{HashMap, HashSet};
use crossbeam_channel::{Receiver, Sender};
use crate::action::{action_views, reports, reports_all, Action, ActionView};
use crate::channel::{offer, poll, queued};
use crate::controller::{event_views, DroneCommand, DroneEvent, Input};
use crate::flood::{
    after_request, answers, broadcasts, deliveries, flood_plan, response_action, trace_ids,
    visited_by,
};
use crate::forwarding::{
    addressed_to, crash_plan, forward_action, forwarding_plan, fragment_plan, nack_action,
    onward, rejection, DroneView,
};
use crate::handling::{
    after_packet, command_outcome, drain_plan, lemma_reports_all_concat, links_after,
    packet_outcome, packet_plan,
};
use crate::nack::build_nack;
use crate::network::{NodeId, SourceRoutingHeader};
use crate::packet::{
    Ack, FloodRequest, FloodResponse, Nack, NackType, NodeType, Packet, PacketType,
    PacketTypeView, PacketView,
};

verus! {

broadcast use group_hash_axioms;

/// A relay node of the network.
#[derive(Debug)]
pub struct RustDoIt {
    id: NodeId,
    controller_send: Sender<DroneEvent>,
    packet_recv: Receiver<Packet>,
    packet_send: HashMap<NodeId, Sender<Packet>>,
    flood_session: HashSet<u128>,
}

/// The number under which a flood is remembered: its id and its initiator
/// side by side.
spec fn session_key(flood_id: u64, initiator_id: NodeId) -> u128 {
    (flood_id * 256 + initiator_id) as u128
}

impl View for RustDoIt {
    type V = DroneView;

    closed spec fn view(&self) -> DroneView {
        DroneView {
            id: self.id,
            neighbors: self.packet_send@.dom(),
            seen: Set::new(
                |flood: (u64, NodeId)| self.flood_session@.contains(session_key(flood.0, flood.1)),
            ),
        }
    }
}

impl RustDoIt {
    /// A drone that has met no flood yet. It reports to the controller
    /// through `controller_send`, is reached through the channel that
    /// `packet_recv` reads, and reaches its neighbours through `packet_send`.
    pub fn new(
        id: NodeId,
        controller_send: Sender<DroneEvent>,
        packet_recv: Receiver<Packet>,
        packet_send: HashMap<NodeId, Sender<Packet>>,
    ) -> (drone: Self)
        ensures
            drone@ == (DroneView {
                id,
                neighbors: packet_send@.dom(),
                seen: Set::<(u64, NodeId)>::empty(),
            }),
            drone.links() == packet_send@,
    {
        let drone = RustDoIt {
            id,
            controller_send,
            packet_recv,
            packet_send,
            flood_session: HashSet::new(),
        };
        assert(drone@.seen =~= Set::<(u64, NodeId)>::empty());
        drone
    }

    /// The drone's own id.
    pub fn id(&self) -> (id: NodeId)
        ensures
            id == self@.id,
    {
        self.id
    }

    /// Whether `node` is a neighbour.
    pub fn is_neighbor(&self, node: NodeId) -> (known: bool)
        ensures
            known == self@.neighbors.contains(node),
    {
        self.packet_send.contains_key(&node)
    }

    /// Whether the drone has met the flood `flood_id` of `initiator_id`.
    pub fn has_met(&self, flood_id: u64, initiator_id: NodeId) -> (met: bool)
        ensures
            met == self@.seen.contains((flood_id, initiator_id)),
    {
        let key: u128 = (flood_id as u128) * 256 + (initiator_id as u128);
        self.flood_session.contains(&key)
    }

    /// Counts the flood `flood_id` of `initiator_id` as met from now on.
    fn remember(&mut self, flood_id: u64, initiator_id: NodeId)
        ensures
            final(self)@ == (DroneView {
                seen: old(self)@.seen.insert((flood_id, initiator_id)),
                ..old(self)@
            }),
            final(self).links() == old(self).links(),
    {
        let key: u128 = (flood_id as u128) * 256 + (initiator_id as u128);
        self.flood_session.insert(key);
        assert forall|flood: (u64, NodeId)|
            session_key(flood.0, flood.1) == key <==> flood == (flood_id, initiator_id) by {}
        assert(self@.seen =~= old(self)@.seen.insert((flood_id, initiator_id)));
    }

    /// Decides how a negative acknowledgement of kind `nack_type` leaves the
    /// drone, raised on a packet of session `session_id` with the header
    /// `srh`.
    pub fn generate_nack(&self, nack_type: NackType, srh: &SourceRoutingHeader, session_id: u64) -> (action: Action)
        ensures
            action@ == nack_action(self@, nack_type, srh@, session_id),
    {
        let nack = build_nack(nack_type, srh, session_id, self.id);
        match nack.routing_header.current_hop() {
            Some(hop) => {
                if self.packet_send.contains_key(&hop) {
                    Action::Deliver { to: hop, packet: nack }
                } else {
                    Action::Notify(DroneEvent::ControllerShortcut(nack))
                }
            },
            None => Action::Notify(DroneEvent::ControllerShortcut(nack)),
        }
    }

    /// Decides how a packet that is ready to leave for `next_hop` leaves the
    /// drone.
    pub fn forward_packet(&self, packet: Packet, next_hop: NodeId) -> (action: Action)
        ensures
            action@ == forward_action(self@, packet@, next_hop),
    {
        if self.packet_send.contains_key(&next_hop) {
            Action::Deliver { to: next_hop, packet }
        } else {
            self.generate_nack(
                NackType::ErrorInRouting(next_hop),
                &packet.routing_header,
                packet.session_id,
            )
        }
    }

    /// Tells whether a packet with the header `srh` is addressed to this
    /// drone, and, where it is not, what the drone does about it.
    pub fn is_correct_recipient(&self, srh: &SourceRoutingHeader, session_id: u64) -> (gate: (
        bool,
        Vec<Action>,
    ))
        ensures
            gate.0 == addressed_to(self@, srh@),
            gate.0 ==> gate.1@.len() == 0,
            !gate.0 ==> action_views(gate.1@) == rejection(self@, srh@, session_id),
    {
        let mut actions: Vec<Action> = Vec::new();
        match srh.current_hop() {
            Some(hop) => {
                if hop == self.id {
                    (true, actions)
                } else {
                    let action = self.generate_nack(
                        NackType::UnexpectedRecipient(hop),
                        srh,
                        session_id,
                    );
                    actions.push(action);
                    (false, actions)
                }
            },
            None => (false, actions),
        }
    }

    /// Decides how a packet that is addressed to this drone goes on.
    fn send_onward(&self, packet: Packet) -> (action: Action)
        ensures
            action@ == onward(self@, packet@),
    {
        match packet.routing_header.next_hop() {
            None => self.generate_nack(
                NackType::DestinationIsDrone,
                &packet.routing_header,
                packet.session_id,
            ),
            Some(next_hop) => {
                let mut packet = packet;
                assert(packet.routing_header.hops.len() == packet.routing_header.hops@.len());
                packet.routing_header.increase_hop_index();
                self.forward_packet(packet, next_hop)
            },
        }
    }

    /// Decides what to do with an acknowledgement, a negative
    /// acknowledgement or a flood response.
    pub fn handle_packet_forwarding(&self, packet: Packet) -> (actions: Vec<Action>)
        ensures
            action_views(actions@) == forwarding_plan(self@, packet@),
    {
        let (accepted, mut actions) = self.is_correct_recipient(
            &packet.routing_header,
            packet.session_id,
        );
        if accepted {
            let action = self.send_onward(packet);
            actions.push(action);
        }
        actions
    }

    /// Decides what to do with an acknowledgement of the fragment
    /// `fragment_index` that came with the header `srh`.
    pub fn handle_ack(&self, fragment_index: u64, srh: SourceRoutingHeader, session_id: u64) -> (actions:
        Vec<Action>)
        ensures
            action_views(actions@) == forwarding_plan(
                self@,
                PacketView {
                    pack_type: PacketTypeView::Ack(Ack { fragment_index }),
                    routing_header: srh@,
                    session_id,
                },
            ),
    {
        self.handle_packet_forwarding(Packet::new_ack(srh, session_id, fragment_index))
    }

    /// Decides what to do with a negative acknowledgement that came with the
    /// header `srh`.
    pub fn handle_nack(&self, nack: Nack, srh: SourceRoutingHeader, session_id: u64) -> (actions: Vec<
        Action,
    >)
        ensures
            action_views(actions@) == forwarding_plan(
                self@,
                PacketView {
                    pack_type: PacketTypeView::Nack(nack),
                    routing_header: srh@,
                    session_id,
                },
            ),
    {
        self.handle_packet_forwarding(Packet::new_nack(srh, session_id, nack))
    }

    /// Decides what to do with a flood response that came with the header
    /// `srh`.
    pub fn handle_flood_response(
        &self,
        flood_response: FloodResponse,
        srh: SourceRoutingHeader,
        session_id: u64,
    ) -> (actions: Vec<Action>)
        ensures
            action_views(actions@) == forwarding_plan(
                self@,
                PacketView {
                    pack_type: PacketTypeView::FloodResponse(flood_response@),
                    routing_header: srh@,
                    session_id,
                },
            ),
    {
        self.handle_packet_forwarding(Packet::new_flood_response(srh, session_id, flood_response))
    }

    /// Decides what to do with a fragment; `lost` says whether the link
    /// loses it.
    pub fn handle_fragment(&self, packet: Packet, lost: bool) -> (actions: Vec<Action>)
        ensures
            action_views(actions@) == fragment_plan(self@, packet@, lost),
    {
        let (accepted, mut actions) = self.is_correct_recipient(
            &packet.routing_header,
            packet.session_id,
        );
        if accepted {
            if lost {
                let mut header = packet.routing_header.duplicate();
                assert(header.hops.len() == header.hops@.len());
                header.increase_hop_index();
                let nack = self.generate_nack(NackType::Dropped, &header, packet.session_id);
                actions.push(Action::Notify(DroneEvent::PacketDropped(packet)));
                actions.push(nack);
            } else {
                let action = self.send_onward(packet);
                actions.push(action);
            }
        }
        actions
    }

    /// The ids of the neighbours, each once, in the order in which the table
    /// hands them out.
    pub fn neighbor_ids(&self) -> (ids: Vec<NodeId>)
        ensures
            ids@.no_duplicates(),
            ids@.to_set() == self@.neighbors,
    {
        let mut ids: Vec<NodeId> = Vec::new();
        let ghost all = self.packet_send.keys().remaining();
        for key in it: self.packet_send.keys()
            invariant
                it.seq() == all,
                ids@.len() == it.index(),
                forall|k: int| 0 <= k < ids@.len() ==> ids@[k] == *all[k],
        {
            ids.push(*key);
        }
        assert(ids@ =~= all.unref());
        ids
    }

    /// Decides how the answer to a flood request leaves the drone. The
    /// request is the one to answer, the drone's own entry in its trace
    /// included.
    pub fn generate_flood_response(&self, flood_request: FloodRequest, session_id: u64) -> (action:
        Action)
        ensures
            action@ == response_action(self@, flood_request@, session_id),
    {
        let n: usize = flood_request.path_trace.len();
        let mut route: Vec<NodeId> = Vec::new();
        let mut i: usize = n;
        while i > 0
            invariant
                n == flood_request.path_trace@.len(),
                i <= n,
                route@.len() == n - i,
                forall|k: int|
                    0 <= k < route@.len() ==> route@[k] == flood_request.path_trace@[n - 1 - k].0,
            decreases i,
        {
            i = i - 1;
            route.push(flood_request.path_trace[i].0);
        }
        assert(route@ =~= trace_ids(flood_request.path_trace@).reverse());
        let mut srh = SourceRoutingHeader::new(route, 0);
        match srh.next_hop() {
            None => self.generate_nack(NackType::DestinationIsDrone, &srh, session_id),
            Some(next_hop) => {
                srh.increase_hop_index();
                let flood_response = FloodResponse {
                    flood_id: flood_request.flood_id,
                    path_trace: flood_request.path_trace,
                };
                let packet = Packet::new_flood_response(srh, session_id, flood_response);
                self.forward_packet(packet, next_hop)
            },
        }
    }

    /// Decides what to do with a flood request that came in a packet of
    /// session `session_id` with the header `srh`, and remembers the flood.
    pub fn handle_flood_request(
        &mut self,
        flood_request: FloodRequest,
        srh: SourceRoutingHeader,
        session_id: u64,
    ) -> (actions: Vec<Action>)
        ensures
            flood_plan(old(self)@, flood_request@, srh@, session_id, action_views(actions@)),
            final(self)@ == after_request(old(self)@, flood_request@),
            final(self).links() == old(self).links(),
    {
        let mut actions: Vec<Action> = Vec::new();
        let n: usize = flood_request.path_trace.len();
        if n == 0 {
            assert(action_views(actions@) =~= Seq::<ActionView>::empty());
            return actions;
        }
        let prev_hop: NodeId = flood_request.path_trace[n - 1].0;
        let ghost request = flood_request@;
        let ghost before = self@;
        let mut flood_request = flood_request;
        flood_request.path_trace.push((self.id, NodeType::Drone));

        if self.has_met(flood_request.flood_id, flood_request.initiator_id) {
            assert(self@.seen.insert((request.flood_id, request.initiator_id)) =~= self@.seen);
            let action = self.generate_flood_response(flood_request, session_id);
            actions.push(action);
            assert(action_views(actions@) =~= seq![
                response_action(before, visited_by(request, before.id), session_id),
            ]);
            return actions;
        }
        self.remember(flood_request.flood_id, flood_request.initiator_id);

        if self.packet_send.len() == 1 && self.packet_send.contains_key(&prev_hop) {
            let action = self.generate_flood_response(flood_request, session_id);
            actions.push(action);
            assert(action_views(actions@) =~= seq![
                response_action(before, visited_by(request, before.id), session_id),
            ]);
            return actions;
        }
        let packet = Packet::new_flood_request(srh, session_id, flood_request);
        self.pass_on(packet, prev_hop)
    }

    /// Decides to offer `packet` to every neighbour but `except`.
    pub fn pass_on(&self, packet: Packet, except: NodeId) -> (actions: Vec<Action>)
        ensures
            broadcasts(action_views(actions@), self@.neighbors.remove(except), packet@),
    {
        let mut actions: Vec<Action> = Vec::new();
        let ids = self.neighbor_ids();
        let ghost mut order: Seq<NodeId> = Seq::empty();
        let mut i: usize = 0;
        while i < ids.len()
            invariant
                i <= ids@.len(),
                ids@.no_duplicates(),
                order.no_duplicates(),
                forall|node: NodeId|
                    order.contains(node) <==> (node != except && exists|j: int|
                        0 <= j < i && ids@[j] == node),
                action_views(actions@) == deliveries(order, packet@),
            decreases ids@.len() - i,
        {
            let to: NodeId = ids[i];
            if to != except {
                let ghost earlier = order;
                proof {
                    order = order.push(to);
                    assert forall|a: int, b: int|
                        0 <= a < order.len() && 0 <= b < order.len() && a != b implies order[a]
                        != order[b] by {
                        if a == earlier.len() {
                            assert(earlier.contains(earlier[b]));
                        } else if b == earlier.len() {
                            assert(earlier.contains(earlier[a]));
                        }
                    }
                    assert forall|node: NodeId|
                        order.contains(node) <==> (node != except && exists|j: int|
                            0 <= j < i + 1 && ids@[j] == node) by {
                        if order.contains(node) {
                            let k = choose|k: int| 0 <= k < order.len() && order[k] == node;
                            if k < earlier.len() {
                                assert(earlier.contains(node));
                            } else {
                            }
                        }
                        if node != except && exists|j: int| 0 <= j < i + 1 && ids@[j] == node {
                            let j = choose|j: int| 0 <= j < i + 1 && ids@[j] == node;
                            if j < i {
                                assert(earlier.contains(node));
                                let k = choose|k: int| 0 <= k < earlier.len() && earlier[k] == node;
                                assert(order[k] == node);
                            } else {
                                assert(order[earlier.len() as int] == node);
                            }
                        }
                    }
                }
                let ghost planned = actions@;
                actions.push(Action::Deliver { to, packet: packet.duplicate() });
                assert(action_views(actions@) =~= action_views(planned).push(
                    ActionView::Deliver { to, packet: packet@ },
                ));
                assert(deliveries(order, packet@) =~= deliveries(earlier, packet@).push(
                    ActionView::Deliver { to, packet: packet@ },
                ));
            } else {
                assert forall|node: NodeId|
                    order.contains(node) <==> (node != except && exists|j: int|
                        0 <= j < i + 1 && ids@[j] == node) by {
                    if node != except && exists|j: int| 0 <= j < i + 1 && ids@[j] == node {
                        let j = choose|j: int| 0 <= j < i + 1 && ids@[j] == node;
                    }
                }
            }
            i = i + 1;
        }
        proof {
            let targets = self@.neighbors.remove(except);
            assert(order.to_set() =~= targets) by {
                assert forall|node: NodeId| order.to_set().contains(node) == targets.contains(
                    node,
                ) by {
                    if targets.contains(node) {
                    }
                    if order.contains(node) {
                        let j = choose|j: int| 0 <= j < ids@.len() && ids@[j] == node;
                    }
                }
            }
        }
        actions
    }

    /// Decides what a crashing drone does with a packet that was still
    /// queued.
    pub fn decide_crash(&self, packet: Packet) -> (actions: Vec<Action>)
        ensures
            action_views(actions@) == crash_plan(self@, packet@),
    {
        let lost: bool = match packet.pack_type {
            PacketType::MsgFragment(_) | PacketType::FloodRequest(_) => true,
            _ => false,
        };
        if lost {
            let mut actions: Vec<Action> = Vec::new();
            let nack = self.generate_nack(
                NackType::ErrorInRouting(self.id),
                &packet.routing_header,
                packet.session_id,
            );
            actions.push(nack);
            actions.push(Action::Notify(DroneEvent::PacketDropped(packet)));
            actions
        } else {
            self.handle_packet_forwarding(packet)
        }
    }

    /// The channels to the neighbours, by neighbour.
    pub closed spec fn links(&self) -> Map<NodeId, Sender<Packet>> {
        self.packet_send@
    }

    /// A drone reaches exactly the neighbours it has a channel to.
    pub proof fn lemma_neighbors_have_links(&self)
        ensures
            self@.neighbors == self.links().dom(),
    {
    }

    /// Decides what to do with a packet, and remembers a flood that it
    /// brings. `lost` says whether the link loses the packet, which matters
    /// for a fragment only.
    pub fn decide(&mut self, packet: Packet, lost: bool) -> (actions: Vec<Action>)
        ensures
            packet_plan(old(self)@, packet@, lost, action_views(actions@)),
            final(self)@ == after_packet(old(self)@, packet@),
            final(self).links() == old(self).links(),
    {
        match packet.pack_type {
            PacketType::FloodRequest(flood_request) => self.handle_flood_request(
                flood_request,
                packet.routing_header,
                packet.session_id,
            ),
            PacketType::MsgFragment(_) => self.handle_fragment(packet, lost),
            _ => self.handle_packet_forwarding(packet),
        }
    }

    /// Carries the steps out, one after the other: offers each packet to the
    /// neighbour it is meant for, tells the controller, and returns what it
    /// told the controller. A packet meant for a node that is no neighbour
    /// counts as not taken.
    pub fn perform(&self, actions: Vec<Action>) -> (events: Vec<DroneEvent>)
        ensures
            reports_all(action_views(actions@), event_views(events@)),
    {
        let mut events: Vec<DroneEvent> = Vec::new();
        let mut i: usize = 0;
        while i < actions.len()
            invariant
                i <= actions@.len(),
                events@.len() == i,
                forall|k: int|
                    0 <= k < i ==> reports(
                        #[trigger] action_views(actions@)[k],
                        event_views(events@)[k],
                    ),
            decreases actions@.len() - i,
        {
            let event = match &actions[i] {
                Action::Deliver { to, packet } => {
                    let taken: bool = match self.packet_send.get(to) {
                        Some(sender) => offer(sender, packet.duplicate()),
                        None => false,
                    };
                    DroneEvent::for_delivery(packet.duplicate(), taken)
                },
                Action::Notify(event) => event.duplicate(),
            };
            let _ = offer(&self.controller_send, event.duplicate());
            events.push(event);
            i = i + 1;
        }
        events
    }

    /// Deals with a packet that has reached the drone: decides, carries the
    /// decision out, and returns what it told the controller. `lost` says
    /// whether the link loses the packet, which matters for a fragment only.
    pub fn handle_packet(&mut self, packet: Packet, lost: bool) -> (events: Vec<DroneEvent>)
        ensures
            packet_outcome(old(self)@, packet@, lost, event_views(events@)),
            final(self)@ == after_packet(old(self)@, packet@),
            final(self).links() == old(self).links(),
    {
        let actions = self.decide(packet, lost);
        self.perform(actions)
    }

    /// Deals, while crashing, with a packet that was still queued, and
    /// returns what it told the controller.
    pub fn handle_packet_crash(&self, packet: Packet) -> (events: Vec<DroneEvent>)
        ensures
            reports_all(crash_plan(self@, packet@), event_views(events@)),
    {
        let actions = self.decide_crash(packet);
        self.perform(actions)
    }

    /// Obeys the controller, and returns what it told the controller while
    /// doing so. A neighbour is added only if none of that id is known; one
    /// that is not known is removed without effect. On a crash the drone
    /// deals with the packets that are queued at that moment, each as a
    /// crashing drone does.
    pub fn handle_command(&mut self, command: DroneCommand) -> (events: Vec<DroneEvent>)
        ensures
            final(self).links() == links_after(old(self).links(), command),
            final(self)@ == (DroneView { neighbors: final(self).links().dom(), ..old(self)@ }),
            command_outcome(old(self)@, command, event_views(events@)),
    {
        let mut events: Vec<DroneEvent> = Vec::new();
        match command {
            DroneCommand::AddSender(node, sender) => {
                if !self.packet_send.contains_key(&node) {
                    self.packet_send.insert(node, sender);
                }
            },
            DroneCommand::RemoveSender(node) => {
                self.packet_send.remove(&node);
            },
            DroneCommand::Crash => {
                let count: usize = queued(&self.packet_recv);
                let ghost mut drained: Seq<PacketView> = Seq::empty();
                let mut taken: usize = 0;
                let mut empty: bool = false;
                while taken < count && !empty
                    invariant
                        taken <= count,
                        *self == *old(self),
                        reports_all(drain_plan(self@, drained), event_views(events@)),
                    decreases count - taken + if empty { 0int } else { 1int },
                {
                    match poll(&self.packet_recv) {
                        None => {
                            empty = true;
                        },
                        Some(packet) => {
                            let ghost told = events@;
                            let ghost earlier = drained;
                            let mut more = self.handle_packet_crash(packet);
                            let ghost added = more@;
                            events.append(&mut more);
                            proof {
                                drained = drained.push(packet@);
                                assert(drained.drop_last() =~= earlier);
                                assert(event_views(events@) =~= event_views(told) + event_views(
                                    added,
                                ));
                                lemma_reports_all_concat(
                                    drain_plan(self@, earlier),
                                    event_views(told),
                                    crash_plan(self@, packet@),
                                    event_views(added),
                                );
                            }
                            taken = taken + 1;
                        },
                    }
                }
            },
        }
        events
    }

    /// Serves one turn: obeys a command or deals with a packet. Returns what
    /// it told the controller, and whether the drone is still in service,
    /// which it is until it has obeyed the command to crash.
    pub fn serve(&mut self, input: Input) -> (turn: (Vec<DroneEvent>, bool))
        ensures
            turn.1 == !(input matches Input::Command(DroneCommand::Crash)),
            match input {
                Input::Command(command) => {
                    &&& final(self).links() == links_after(old(self).links(), command)
                    &&& final(self)@ == (DroneView {
                        neighbors: final(self).links().dom(),
                        ..old(self)@
                    })
                    &&& command_outcome(old(self)@, command, event_views(turn.0@))
                },
                Input::Packet(packet, lost) => {
                    &&& final(self).links() == old(self).links()
                    &&& final(self)@ == after_packet(old(self)@, packet@)
                    &&& packet_outcome(old(self)@, packet@, lost, event_views(turn.0@))
                },
            },
    {
        match input {
            Input::Command(command) => {
                let in_service: bool = match command {
                    DroneCommand::Crash => false,
                    _ => true,
                };
                (self.handle_command(command), in_service)
            },
            Input::Packet(packet, lost) => (self.handle_packet(packet, lost), true),
        }
    }
}

} // verus!
