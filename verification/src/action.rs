//! What a drone decides to do with a packet, before anything is sent.

use vstd::prelude::*;
use crate::controller::{delivery_event, DroneEvent, DroneEventView};
use crate::network::NodeId;
use crate::packet::{Packet, PacketView};

verus! {

/// One step that a drone has decided on.
#[derive(Debug, Clone, PartialEq, Eq)]
pub enum Action {
    /// Offer the packet to the neighbour `to`, and report to the controller
    /// how that went.
    Deliver { to: NodeId, packet: Packet },
    /// Report the event to the controller; nothing goes to a neighbour.
    Notify(DroneEvent),
}

/// A step as a mathematical value.
pub enum ActionView {
    Deliver { to: NodeId, packet: PacketView },
    Notify(DroneEventView),
}

impl View for Action {
    type V = ActionView;

    open spec fn view(&self) -> ActionView {
        match *self {
            Action::Deliver { to, packet } => ActionView::Deliver { to, packet: packet@ },
            Action::Notify(event) => ActionView::Notify(event@),
        }
    }
}

/// The views of a list of steps, in order.
pub open spec fn action_views(actions: Seq<Action>) -> Seq<ActionView> {
    actions.map_values(|action: Action| action@)
}

/// `event` is what the controller is owed once `action` has been carried
/// out: for a delivery, `PacketSent` or the event for a failed delivery,
/// whichever the channel decided; for a report, the event itself.
pub open spec fn reports(action: ActionView, event: DroneEventView) -> bool {
    match action {
        ActionView::Deliver { to, packet } => event == delivery_event(packet, true) || event
            == delivery_event(packet, false),
        ActionView::Notify(owed) => event == owed,
    }
}

/// `events` holds, step by step and in order, what the controller is owed
/// once the steps of `plan` have been carried out.
pub open spec fn reports_all(plan: Seq<ActionView>, events: Seq<DroneEventView>) -> bool {
    &&& events.len() == plan.len()
    &&& forall|i: int| 0 <= i < plan.len() ==> reports(#[trigger] plan[i], events[i])
}

impl Action {
    /// A step with the same content.
    pub fn duplicate(&self) -> (copy: Self)
        ensures
            copy@ == self@,
    {
        match self {
            Action::Deliver { to, packet } => Action::Deliver { to: *to, packet: packet.duplicate() },
            Action::Notify(event) => Action::Notify(event.duplicate()),
        }
    }
}

} // verus!
