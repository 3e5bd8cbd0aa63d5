//! Negative acknowledgements and the way back that they take.

use vstd::prelude::*;
use crate::network::{NodeId, Route, SourceRoutingHeader};
use crate::packet::{Nack, NackType, Packet, PacketTypeView, PacketView};

verus! {

/// How many hops of the forward path a negative acknowledgement goes back
/// over. A routing error or a drop is raised with the cursor already on the
/// hop that was not reached, which is left out; otherwise the hop under the
/// cursor is the last one that counts.
pub open spec fn traversed_len(route: Route, nack_type: NackType) -> nat {
    match nack_type {
        NackType::ErrorInRouting(_) | NackType::Dropped => route.hop_index,
        NackType::UnexpectedRecipient(_) | NackType::DestinationIsDrone => route.hop_index + 1,
    }
}

/// The way back for a negative acknowledgement raised by node `id` on a
/// packet with the forward route `route`: the traversed hops in the opposite
/// order. For an unexpected recipient the node puts itself in the place of
/// the hop the packet was addressed to. Where the cursor points beyond the
/// path there is no way back, and the result is empty.
pub open spec fn return_path(route: Route, nack_type: NackType, id: NodeId) -> Seq<NodeId> {
    let n = traversed_len(route, nack_type);
    if n <= route.hops.len() {
        Seq::new(
            n,
            |i: int|
                if i == 0 && nack_type is UnexpectedRecipient {
                    id
                } else {
                    route.hops[n - 1 - i]
                },
        )
    } else {
        Seq::empty()
    }
}

/// The header of a negative acknowledgement: the way back, with the cursor on
/// the first hop after the node that raised it.
pub open spec fn return_route(route: Route, nack_type: NackType, id: NodeId) -> Route {
    Route { hops: return_path(route, nack_type, id), hop_index: 1 }
}

/// The negative acknowledgement that node `id` raises on a packet of session
/// `session_id` with the forward route `route`.
pub open spec fn nack_packet(route: Route, nack_type: NackType, session_id: u64, id: NodeId) -> PacketView {
    PacketView {
        pack_type: PacketTypeView::Nack(Nack { fragment_index: 0, nack_type }),
        routing_header: return_route(route, nack_type, id),
        session_id,
    }
}

/// Builds the header of a negative acknowledgement: the traversed part of
/// the forward path, turned round, with the cursor at 1.
pub fn build_return_route(srh: &SourceRoutingHeader, nack_type: NackType, id: NodeId) -> (header: SourceRoutingHeader)
    ensures
        header@ == return_route(srh@, nack_type, id),
{
    let before_cursor: bool = match nack_type {
        NackType::ErrorInRouting(_) | NackType::Dropped => true,
        _ => false,
    };
    let traversed: Option<SourceRoutingHeader> = if before_cursor {
        srh.sub_route(0, srh.hop_index)
    } else if srh.hop_index < srh.hops.len() {
        srh.sub_route(0, srh.hop_index + 1)
    } else {
        None
    };
    proof {
        lemma_return_path_reverses_traversed(srh@, nack_type, id);
    }
    match traversed {
        Some(mut header) => {
            match nack_type {
                NackType::UnexpectedRecipient(_) => {
                    header.hops.pop();
                    header.hops.push(id);
                },
                _ => {},
            }
            header.reverse_hops();
            header.hop_index = 1;
            header
        },
        None => SourceRoutingHeader::new(Vec::new(), 1),
    }
}

/// Builds the negative acknowledgement that node `id` raises on a packet of
/// session `session_id` whose header is `srh`.
pub fn build_nack(nack_type: NackType, srh: &SourceRoutingHeader, session_id: u64, id: NodeId) -> (packet: Packet)
    ensures
        packet@ == nack_packet(srh@, nack_type, session_id, id),
{
    let header = build_return_route(srh, nack_type, id);
    Packet::new_nack(header, session_id, Nack { fragment_index: 0, nack_type })
}

/// The way back is the part of the forward path that was traversed, in the
/// opposite order: for a routing error or a drop the hops before the cursor,
/// otherwise the hops up to and including the cursor; for an unexpected
/// recipient the node that raises it stands in the place of the last of
/// them. Where that part does not lie inside the path, the way back is empty.
pub proof fn lemma_return_path_reverses_traversed(route: Route, nack_type: NackType, id: NodeId)
    ensures
        match route.sub_route(0, traversed_len(route, nack_type)) {
            Some(part) => return_path(route, nack_type, id) == if nack_type
                is UnexpectedRecipient {
                part.hops.drop_last().push(id).reverse()
            } else {
                part.hops.reverse()
            },
            None => return_path(route, nack_type, id) == Seq::<NodeId>::empty(),
        },
{
    if nack_type is UnexpectedRecipient && traversed_len(route, nack_type) <= route.hops.len() {
        let part = route.hops.subrange(0, traversed_len(route, nack_type) as int);
        assert(return_path(route, nack_type, id) =~= part.drop_last().push(id).reverse());
    }
}

/// A negative acknowledgement starts its way back with the cursor at 1, on
/// the hop that handed the packet to the node that raises it. Raised on a
/// packet whose cursor is on that node (or, for a routing error or a drop,
/// one hop further), that is the hop before the node on the forward path.
pub proof fn lemma_nack_starts_at_predecessor(route: Route, nack_type: NackType, id: NodeId)
    requires
        2 <= traversed_len(route, nack_type) <= route.hops.len(),
    ensures
        return_route(route, nack_type, id).hop_index == 1,
        return_route(route, nack_type, id).current_hop() == Some(
            route.hops[traversed_len(route, nack_type) - 2],
        ),
        return_route(route, nack_type, id).hops.len() == traversed_len(route, nack_type),
        return_route(route, nack_type, id).hops[0] == if nack_type is UnexpectedRecipient {
            id
        } else {
            route.hops[traversed_len(route, nack_type) - 1]
        },
{
}

} // verus!
