//! Source routes and the way back of a negative acknowledgement.

use rust_do_it::nack::{build_nack, build_return_route};
use rust_do_it::network::SourceRoutingHeader;
use rust_do_it::packet::{
    duplicate_trace, FloodRequest, Nack, NackType, NodeType, Packet, PacketType,
};

#[test]
fn cursor_reads_the_hop_under_it_and_the_next() {
    let header = SourceRoutingHeader::new(vec![1, 11, 12, 21], 1);
    assert_eq!(header.len(), 4);
    assert_eq!(header.current_hop(), Some(11));
    assert_eq!(header.next_hop(), Some(12));
    assert!(header.valid_hop_index());

    let last = SourceRoutingHeader::new(vec![1, 11, 12, 21], 3);
    assert_eq!(last.current_hop(), Some(21));
    assert_eq!(last.next_hop(), None);
    assert!(last.valid_hop_index());

    let beyond = SourceRoutingHeader::new(vec![1, 11, 12, 21], 4);
    assert_eq!(beyond.current_hop(), None);
    assert_eq!(beyond.next_hop(), None);
    assert!(!beyond.valid_hop_index());

    let far = SourceRoutingHeader::new(vec![1, 11], usize::MAX);
    assert_eq!(far.current_hop(), None);
    assert_eq!(far.next_hop(), None);

    let empty = SourceRoutingHeader::new(vec![], 0);
    assert_eq!(empty.len(), 0);
    assert_eq!(empty.current_hop(), None);
    assert_eq!(empty.next_hop(), None);
    assert!(!empty.valid_hop_index());
}

#[test]
fn cursor_moves_on_and_the_path_stays() {
    let mut header = SourceRoutingHeader::new(vec![1, 11, 12], 0);
    header.increase_hop_index();
    assert_eq!(header, SourceRoutingHeader { hop_index: 1, hops: vec![1, 11, 12] });
    header.increase_hop_index();
    header.increase_hop_index();
    assert_eq!(header, SourceRoutingHeader { hop_index: 3, hops: vec![1, 11, 12] });
    assert_eq!(header.duplicate(), header);
}

#[test]
fn sub_route_keeps_a_range_of_hops() {
    let header = SourceRoutingHeader::new(vec![1, 11, 12, 21], 2);
    assert_eq!(header.sub_route(0, 2), Some(SourceRoutingHeader::new(vec![1, 11], 0)));
    assert_eq!(header.sub_route(1, 4), Some(SourceRoutingHeader::new(vec![11, 12, 21], 0)));
    assert_eq!(header.sub_route(2, 2), Some(SourceRoutingHeader::new(vec![], 0)));
    assert_eq!(header.sub_route(0, 5), None);
    assert_eq!(header.sub_route(3, 2), None);
}

#[test]
fn reverse_turns_the_hops_round() {
    let mut header = SourceRoutingHeader::new(vec![1, 11, 12, 21], 2);
    header.reverse_hops();
    assert_eq!(header, SourceRoutingHeader::new(vec![21, 12, 11, 1], 2));
    let mut empty = SourceRoutingHeader::new(vec![], 0);
    empty.reverse_hops();
    assert_eq!(empty, SourceRoutingHeader::new(vec![], 0));
}

#[test]
fn way_back_for_each_kind_of_nack() {
    let header = SourceRoutingHeader::new(vec![1, 11, 12, 21], 2);
    assert_eq!(
        build_return_route(&header, NackType::Dropped, 12),
        SourceRoutingHeader::new(vec![11, 1], 1)
    );
    assert_eq!(
        build_return_route(&header, NackType::ErrorInRouting(12), 11),
        SourceRoutingHeader::new(vec![11, 1], 1)
    );
    assert_eq!(
        build_return_route(&header, NackType::DestinationIsDrone, 12),
        SourceRoutingHeader::new(vec![12, 11, 1], 1)
    );
    assert_eq!(
        build_return_route(&header, NackType::UnexpectedRecipient(12), 13),
        SourceRoutingHeader::new(vec![13, 11, 1], 1)
    );
}

#[test]
fn way_back_at_the_edges_of_a_path() {
    let start = SourceRoutingHeader::new(vec![1, 11], 0);
    assert_eq!(
        build_return_route(&start, NackType::Dropped, 1),
        SourceRoutingHeader::new(vec![], 1)
    );
    assert_eq!(
        build_return_route(&start, NackType::DestinationIsDrone, 1),
        SourceRoutingHeader::new(vec![1], 1)
    );
    assert_eq!(
        build_return_route(&start, NackType::UnexpectedRecipient(1), 7),
        SourceRoutingHeader::new(vec![7], 1)
    );

    let end = SourceRoutingHeader::new(vec![1, 11], 2);
    assert_eq!(
        build_return_route(&end, NackType::ErrorInRouting(3), 11),
        SourceRoutingHeader::new(vec![11, 1], 1)
    );
    assert_eq!(
        build_return_route(&end, NackType::DestinationIsDrone, 11),
        SourceRoutingHeader::new(vec![], 1)
    );
    assert_eq!(
        build_return_route(&end, NackType::UnexpectedRecipient(1), 11),
        SourceRoutingHeader::new(vec![], 1)
    );

    let far = SourceRoutingHeader::new(vec![1, 11], usize::MAX);
    for nack_type in [
        NackType::Dropped,
        NackType::ErrorInRouting(3),
        NackType::DestinationIsDrone,
        NackType::UnexpectedRecipient(3),
    ] {
        assert_eq!(build_return_route(&far, nack_type, 11), SourceRoutingHeader::new(vec![], 1));
    }
}

#[test]
fn nack_carries_kind_session_and_fragment_index_zero() {
    let header = SourceRoutingHeader::new(vec![1, 11, 12, 21], 1);
    assert_eq!(
        build_nack(NackType::UnexpectedRecipient(11), &header, 77, 5),
        Packet {
            pack_type: PacketType::Nack(Nack {
                fragment_index: 0,
                nack_type: NackType::UnexpectedRecipient(11)
            }),
            routing_header: SourceRoutingHeader { hop_index: 1, hops: vec![5, 1] },
            session_id: 77,
        }
    );
}

#[test]
fn duplicates_are_equal_to_what_they_were_made_from() {
    let trace = vec![(1, NodeType::Client), (11, NodeType::Drone), (21, NodeType::Server)];
    assert_eq!(duplicate_trace(&trace), trace);
    let request = FloodRequest { flood_id: 5, initiator_id: 1, path_trace: trace };
    assert_eq!(request.duplicate(), request);
    let packet = Packet::new_flood_request(SourceRoutingHeader::new(vec![3, 4], 1), 6, request);
    assert_eq!(packet.duplicate(), packet);
    assert_eq!(packet.pack_type.duplicate(), packet.pack_type);
}
