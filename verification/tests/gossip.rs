use ekk::gossip::{
    EventV2, GossipContext, LWWTimestamp, VVEntry, VVOrder, VVSummary, VersionVector,
};
use ekk::types::Error;

#[test]
fn test_version_vector_basic() {
    let mut vv = VersionVector::new();

    assert_eq!(vv.get(1), 0);

    vv.set(1, 5).unwrap();
    assert_eq!(vv.get(1), 5);

    vv.set(2, 3).unwrap();
    assert_eq!(vv.get(2), 3);

    let next = vv.increment(1);
    assert_eq!(next, 6);
    assert_eq!(vv.get(1), 6);
}

#[test]
fn test_version_vector_compare() {
    let mut a = VersionVector::new();
    let mut b = VersionVector::new();

    // Both empty - equal
    assert_eq!(a.compare(&b), VVOrder::Equal);

    // a > b
    a.set(1, 5).unwrap();
    b.set(1, 3).unwrap();
    assert_eq!(a.compare(&b), VVOrder::After);

    // b > a
    b.set(1, 7).unwrap();
    assert_eq!(a.compare(&b), VVOrder::Before);

    // Concurrent
    a.set(2, 10).unwrap();
    b.set(3, 10).unwrap();
    assert_eq!(a.compare(&b), VVOrder::Concurrent);
}

#[test]
fn test_version_vector_merge() {
    let mut local = VersionVector::new();
    let mut remote = VersionVector::new();

    local.set(1, 5).unwrap();
    local.set(2, 3).unwrap();

    remote.set(1, 3).unwrap(); // local wins
    remote.set(2, 7).unwrap(); // remote wins
    remote.set(3, 4).unwrap(); // new entry

    local.merge(&remote);

    assert_eq!(local.get(1), 5); // kept local
    assert_eq!(local.get(2), 7); // took remote
    assert_eq!(local.get(3), 4); // added new
}

#[test]
fn test_lww_timestamp() {
    let a = LWWTimestamp::new(1000, 1);
    let b = LWWTimestamp::new(2000, 1);

    assert!(!a.is_newer(&b));
    assert!(b.is_newer(&a));

    // Same timestamp, tiebreaker
    let c = LWWTimestamp::new(1000, 5);
    assert!(c.is_newer(&a)); // higher origin_id wins
}

#[test]
fn test_gossip_context_emit() {
    let mut ctx = GossipContext::new(1);

    ctx.emit(0x01, &[1, 2, 3, 4], 1000000).unwrap();

    assert_eq!(ctx.pending_count(), 1);
    assert_eq!(ctx.local_sequence(), 2);
    assert_eq!(ctx.version_vector().get(1), 1);
}

#[test]
fn test_gossip_duplicate_detection() {
    let mut ctx = GossipContext::new(2);
    ctx.add_neighbor(1).unwrap();

    // Receive event with origin_seq = 1
    let mut event = EventV2::default();
    event.origin_id = 1;
    event.origin_seq = 1;

    assert!(ctx.handle_event(&event, 1).is_ok());

    // Same event again - should be duplicate
    assert_eq!(ctx.handle_event(&event, 1), Err(Error::AlreadyExists));
    assert_eq!(ctx.stats().duplicates, 1);
}

#[test]
fn test_gossip_gap_detection() {
    let mut ctx = GossipContext::new(2);
    ctx.add_neighbor(1).unwrap();

    // Receive event with origin_seq = 3 (gap: missing 1, 2)
    let mut event = EventV2::default();
    event.origin_id = 1;
    event.origin_seq = 3;

    assert_eq!(ctx.handle_event(&event, 1), Err(Error::NotFound));
    assert_eq!(ctx.stats().gaps_detected, 1);
}

#[test]
fn test_vv_summary() {
    let mut vv = VersionVector::new();
    vv.set(1, 100).unwrap();
    vv.set(2, 200).unwrap();
    vv.set(3, 300).unwrap();

    let neighbor_ids = [1, 2, 3];
    let summary = VVSummary::from_vv(&vv, &neighbor_ids);

    assert_eq!(summary.seqs[0], 100);
    assert_eq!(summary.seqs[1], 200);
    assert_eq!(summary.seqs[2], 44); // 300 mod 256

    let restored = summary.to_vv(&neighbor_ids);
    assert_eq!(restored.get(1), 100);
    assert_eq!(restored.get(2), 200);
    assert_eq!(restored.get(3), 44); // Lossy compression
}

#[test]
fn version_vector_is_full_at_eight_entries() {
    let mut vv = VersionVector::new();
    for id in 1..=8u8 {
        assert_eq!(vv.set(id, id as u32), Ok(()));
    }
    assert_eq!(vv.set(9, 1), Err(Error::NoMemory));
    assert_eq!(vv.get(9), 0);
    // an entry that is there can still be updated
    assert_eq!(vv.set(8, 80), Ok(()));
    assert_eq!(vv.get(8), 80);
    assert_eq!(vv.count, 8);
}

#[test]
fn increment_wraps_at_the_limit() {
    let mut vv = VersionVector::new();
    vv.set(4, u32::MAX).unwrap();
    assert_eq!(vv.increment(4), 0);
    assert_eq!(vv.get(4), 0);
}

#[test]
fn lww_order_is_by_timestamp_then_origin() {
    let a = LWWTimestamp::new(1000, 9);
    let b = LWWTimestamp::new(1001, 1);
    assert!(a < b);
    assert!(LWWTimestamp::new(1000, 1) < a);
    assert!(!a.is_newer(&a));
    assert_eq!(a.is_newer(&b), !b.is_newer(&a));
}

#[test]
fn neighbors_are_added_and_removed_in_order() {
    let mut ctx = GossipContext::new(1);
    for id in 2..=8u8 {
        assert_eq!(ctx.add_neighbor(id), Ok(()));
    }
    assert_eq!(ctx.add_neighbor(3), Err(Error::AlreadyExists));
    assert_eq!(ctx.add_neighbor(9), Err(Error::NoMemory));
    assert_eq!(ctx.neighbor_ids(), vec![2, 3, 4, 5, 6, 7, 8]);
    assert_eq!(ctx.remove_neighbor(4), Ok(()));
    assert_eq!(ctx.neighbor_ids(), vec![2, 3, 5, 6, 7, 8]);
    assert_eq!(ctx.remove_neighbor(4), Err(Error::NotFound));
    assert_eq!(ctx.remove_neighbor(8), Ok(()));
    assert_eq!(ctx.neighbor_ids(), vec![2, 3, 5, 6, 7]);
}

#[test]
fn emit_rejects_long_payloads_and_full_buffers() {
    let mut ctx = GossipContext::new(1);
    assert_eq!(ctx.emit(0x01, &[0u8; 21], 5), Err(Error::InvalidArg));
    assert_eq!(ctx.pending_count(), 0);
    for _ in 0..8 {
        assert_eq!(ctx.emit(0x01, &[9u8; 20], 5), Ok(()));
    }
    assert_eq!(ctx.emit(0x01, &[1], 5), Err(Error::NoMemory));
    assert_eq!(ctx.pending_count(), 8);
    assert_eq!(ctx.local_sequence(), 9);
    ctx.clear_pending();
    assert_eq!(ctx.pending_count(), 0);
    assert_eq!(ctx.pending_events().len(), 0);
}

#[test]
fn emitted_event_carries_stamp_and_padded_payload() {
    let mut ctx = GossipContext::new(7);
    ctx.emit(0x02, &[1, 2, 3], 0x1_0000_0005).unwrap();
    let events = ctx.pending_events();
    assert_eq!(events.len(), 1);
    let e = events[0];
    assert_eq!(e.sequence, 1);
    assert_eq!(e.origin_seq, 1);
    assert_eq!(e.timestamp_us, 5);
    assert_eq!(e.event_type, 0x02);
    assert_eq!(e.flags, 0);
    assert_eq!(e.origin_id, 7);
    assert_eq!(e.hop_count, 0);
    let mut expected = [0u8; 20];
    expected[0] = 1;
    expected[1] = 2;
    expected[2] = 3;
    assert_eq!(e.payload, expected);
    let stamp = e.lww_timestamp();
    assert_eq!(stamp, LWWTimestamp::new(5, 7));
}

#[test]
fn buffer_is_tried_front_to_back_once() {
    let mut ctx = GossipContext::new(2);
    let mut event = EventV2::default();
    event.origin_id = 1;
    event.origin_seq = 3;
    assert_eq!(ctx.handle_event(&event, 1), Err(Error::NotFound));
    event.origin_seq = 2;
    assert_eq!(ctx.handle_event(&event, 1), Err(Error::NotFound));
    event.origin_seq = 1;
    assert_eq!(ctx.handle_event(&event, 1), Ok(()));
    // event 3 lies before event 2 in the buffer and was tried too early
    assert_eq!(ctx.version_vector().get(1), 2);
    assert_eq!(ctx.buffered_count, 1);
    assert_eq!(ctx.buffered_events[0].origin_seq, 3);
    ctx.process_buffered_events();
    assert_eq!(ctx.version_vector().get(1), 3);
    assert_eq!(ctx.buffered_count, 0);
}

#[test]
fn buffered_events_are_applied_once_the_gap_closes() {
    let mut ctx = GossipContext::new(2);
    let mut event = EventV2::default();
    event.origin_id = 1;
    event.origin_seq = 2;
    assert_eq!(ctx.handle_event(&event, 1), Err(Error::NotFound));
    event.origin_seq = 3;
    assert_eq!(ctx.handle_event(&event, 1), Err(Error::NotFound));
    assert_eq!(ctx.buffered_count, 2);
    event.origin_seq = 1;
    event.hop_count = 3;
    assert_eq!(ctx.handle_event(&event, 1), Ok(()));
    assert_eq!(ctx.version_vector().get(1), 3);
    assert_eq!(ctx.buffered_count, 0);
    let stats = *ctx.stats();
    assert_eq!(stats.events_received, 3);
    assert_eq!(stats.gaps_detected, 2);
    assert_eq!(stats.ttl_expired, 1);
    assert_eq!(stats.duplicates, 0);
    ctx.reset_stats();
    assert_eq!(ctx.stats().events_received, 0);
}

#[test]
fn gap_buffer_holds_four_events() {
    let mut ctx = GossipContext::new(2);
    let mut event = EventV2::default();
    event.origin_id = 1;
    for seq in 10..16u32 {
        event.origin_seq = seq;
        assert_eq!(ctx.handle_event(&event, 1), Err(Error::NotFound));
    }
    assert_eq!(ctx.buffered_count, 4);
    assert_eq!(ctx.stats().gaps_detected, 6);
}

#[test]
fn merge_vv_takes_the_higher_sequences() {
    let mut ctx = GossipContext::new(1);
    let mut remote = VersionVector::new();
    remote.set(1, 4).unwrap();
    remote.set(5, 2).unwrap();
    ctx.merge_vv(&remote);
    assert_eq!(ctx.version_vector().get(1), 4);
    assert_eq!(ctx.version_vector().get(5), 2);
}

#[test]
fn summary_covers_seven_neighbors_and_skips_zero_slots() {
    let mut vv = VersionVector::new();
    for id in 1..=8u8 {
        vv.set(id, 256 + id as u32).unwrap();
    }
    let ids = [1u8, 2, 3, 4, 5, 6, 7, 8];
    let summary = VVSummary::from_vv(&vv, &ids);
    assert_eq!(summary.seqs, [1, 2, 3, 4, 5, 6, 7]);
    let zero = VVSummary::default();
    let restored = zero.to_vv(&ids);
    assert_eq!(restored.count, 0);
}

#[test]
fn new_version_vector_is_blank() {
    let blank = VVEntry { module_id: 0, sequence: 0 };
    let vv = VersionVector::new();
    assert_eq!(vv.count, 0);
    assert_eq!(vv.entries, [blank; 8]);
    for id in 0..=255u8 {
        assert_eq!(vv.get(id), 0);
    }
    let other = VersionVector::default();
    assert_eq!(other.count, 0);
    assert_eq!(other.entries, [blank; 8]);
    assert_eq!(vv.compare(&other), VVOrder::Equal);
}
