//! Event gossip between modules: version vectors for causal ordering,
//! last-writer-wins timestamps for conflict resolution, and the per-module
//! context that detects duplicates and gaps in what it receives.

use vstd::prelude::*;
use crate::types::{Error, ModuleId, TimeUs};

verus! {

/// Maximum entries in version vector.
pub const VV_MAX_ENTRIES: usize = 8;

/// Maximum hops for event propagation (TTL).
pub const GOSSIP_MAX_HOPS: u8 = 3;

/// Gossip tick interval in microseconds.
pub const GOSSIP_TICK_US: u64 = 10_000;

/// Maximum events per gossip batch.
pub const GOSSIP_BATCH_SIZE: usize = 2;

/// Version vector entry.
#[derive(Debug, Clone, Copy, PartialEq, Eq, Structural)]
pub struct VVEntry {
    /// Module this entry tracks
    pub module_id: ModuleId,
    /// Highest sequence seen from this module
    pub sequence: u32,
}

/// Version vector for causal ordering: a sparse table that tracks only the
/// modules from which events were seen.
#[derive(Debug, Clone, Copy)]
pub struct VersionVector {
    pub entries: [VVEntry; 8],
    pub count: usize,
}

/// Version vector comparison result.
#[derive(Debug, Clone, Copy, PartialEq, Eq, Structural)]
pub enum VVOrder {
    /// Identical vectors
    Equal,
    /// Self happened-before other
    Before,
    /// Other happened-before self
    After,
    /// Concurrent (neither dominates)
    Concurrent,
}

/// Position of the first entry for `module_id` from position `from` on, or
/// the number of entries where there is none.
pub open spec fn find_from(entries: Seq<VVEntry>, module_id: ModuleId, from: int) -> int
    decreases entries.len() - from,
{
    if from >= entries.len() {
        entries.len() as int
    } else if from >= 0 && entries[from].module_id == module_id {
        from
    } else {
        find_from(entries, module_id, from + 1)
    }
}

/// The sequence that the entries hold for `module_id`: that of its first
/// entry, or zero where it has none.
pub open spec fn lookup(entries: Seq<VVEntry>, module_id: ModuleId) -> u32 {
    let i = find_from(entries, module_id, 0);
    if i < entries.len() {
        entries[i].sequence
    } else {
        0
    }
}

/// The entries after the sequence of `module_id` is set: its first entry is
/// updated; without one, a new entry goes behind the others while there are
/// fewer than eight, and nothing changes at eight.
pub open spec fn set_spec(entries: Seq<VVEntry>, module_id: ModuleId, seq: u32) -> Seq<VVEntry> {
    let i = find_from(entries, module_id, 0);
    if i < entries.len() {
        entries.update(i, VVEntry { module_id, sequence: seq })
    } else if entries.len() < 8 {
        entries.push(VVEntry { module_id, sequence: seq })
    } else {
        entries
    }
}

/// Whether setting a sequence for `module_id` finds room.
pub open spec fn set_fits(entries: Seq<VVEntry>, module_id: ModuleId) -> bool {
    find_from(entries, module_id, 0) < entries.len() || entries.len() < 8
}

/// Where `find_from` points: at an entry for the module with none before it,
/// or behind the entries when there is none at all.
pub proof fn lemma_find_from(entries: Seq<VVEntry>, module_id: ModuleId, from: int)
    requires
        0 <= from <= entries.len(),
    ensures
        from <= find_from(entries, module_id, from) <= entries.len(),
        find_from(entries, module_id, from) < entries.len() ==> entries[find_from(
            entries,
            module_id,
            from,
        )].module_id == module_id,
        forall|j: int|
            from <= j < find_from(entries, module_id, from) ==> (#[trigger] entries[j]).module_id
                != module_id,
    decreases entries.len() - from,
{
    if from < entries.len() && entries[from].module_id != module_id {
        lemma_find_from(entries, module_id, from + 1);
    }
}

/// After a sequence is set with room for it, looking it up gives it back,
/// and the sequence of every other module is as before.
pub proof fn lemma_set_then_lookup(entries: Seq<VVEntry>, module_id: ModuleId, seq: u32)
    requires
        set_fits(entries, module_id),
    ensures
        lookup(set_spec(entries, module_id, seq), module_id) == seq,
        forall|other: ModuleId|
            other != module_id ==> lookup(set_spec(entries, module_id, seq), other) == lookup(
                entries,
                other,
            ),
{
    let after = set_spec(entries, module_id, seq);
    lemma_find_from(entries, module_id, 0);
    lemma_find_from(after, module_id, 0);
    let i = find_from(entries, module_id, 0);
    assert(after[i].module_id == module_id);
    assert forall|other: ModuleId| other != module_id implies lookup(after, other) == lookup(
        entries,
        other,
    ) by {
        lemma_find_from(entries, other, 0);
        lemma_find_from(after, other, 0);
        let a = find_from(entries, other, 0);
        let b = find_from(after, other, 0);
        if a < entries.len() {
            assert(after[a].module_id == other);
        }
        if b < after.len() {
            if b < entries.len() {
                assert(entries[b].module_id == other);
            }
        }
    }
}

/// Whether the first vector is nowhere behind the second: each of its own
/// entries is at least what the second holds for that module, and what it
/// holds for the module of each entry of the second is at least that entry.
pub open spec fn dominates(a: Seq<VVEntry>, b: Seq<VVEntry>) -> bool {
    &&& forall|i: int| 0 <= i < a.len() ==> (#[trigger] a[i]).sequence >= lookup(b, a[i].module_id)
    &&& forall|i: int| 0 <= i < b.len() ==> lookup(a, (#[trigger] b[i]).module_id) >= b[i].sequence
}

/// The order of two version vectors.
pub open spec fn compare_spec(a: Seq<VVEntry>, b: Seq<VVEntry>) -> VVOrder {
    if dominates(a, b) && dominates(b, a) {
        VVOrder::Equal
    } else if dominates(a, b) {
        VVOrder::After
    } else if dominates(b, a) {
        VVOrder::Before
    } else {
        VVOrder::Concurrent
    }
}

/// The entries after the first `k` entries of `other` are merged in: each
/// in turn replaces what is held for its module where it is higher.
pub open spec fn merge_spec(entries: Seq<VVEntry>, other: Seq<VVEntry>, k: int) -> Seq<VVEntry>
    decreases k,
{
    if k <= 0 {
        entries
    } else {
        let prev = merge_spec(entries, other, k - 1);
        let e = other[k - 1];
        if e.sequence > lookup(prev, e.module_id) {
            set_spec(prev, e.module_id, e.sequence)
        } else {
            prev
        }
    }
}

/// The sequence after one more event, wrapping at the limit.
pub open spec fn next_seq(sequence: u32) -> u32 {
    if sequence == u32::MAX {
        0
    } else {
        (sequence + 1) as u32
    }
}

impl VersionVector {
    /// The entries in use, in the order in which they were added.
    pub open spec fn view(self) -> Seq<VVEntry> {
        self.entries@.subrange(0, self.count as int)
    }

    /// Validity of a version vector: it uses eight entries at most.
    pub open spec fn wf(self) -> bool {
        self.count <= 8
    }

    /// The sequence held for a module, zero where none is.
    pub open spec fn spec_get(self, module_id: ModuleId) -> u32 {
        lookup(self@, module_id)
    }

    /// Create empty version vector: no entry is in use, and each of the
    /// eight entries holds module 0 with sequence 0.
    pub fn new() -> (vv: VersionVector)
        ensures
            vv.wf(),
            vv.count == 0,
            vv@ == Seq::<VVEntry>::empty(),
            forall|i: int|
                0 <= i < 8 ==> (#[trigger] vv.entries[i]) == (VVEntry { module_id: 0, sequence: 0 }),
    {
        let blank = VVEntry { module_id: 0, sequence: 0 };
        let vv = VersionVector { entries: [blank;8], count: 0 };
        assert(vv@ =~= Seq::<VVEntry>::empty());
        vv
    }

    /// Position of the first entry for the module, or the number of entries.
    fn find(&self, module_id: ModuleId) -> (i: usize)
        requires
            self.wf(),
        ensures
            i == find_from(self@, module_id, 0),
            i <= self.count,
    {
        let mut i: usize = 0;
        while i < self.count
            invariant
                i <= self.count,
                self.wf(),
                find_from(self@, module_id, 0) == find_from(self@, module_id, i as int),
            decreases self.count - i,
        {
            if self.entries[i].module_id == module_id {
                return i;
            }
            i += 1;
        }
        i
    }

    /// Get sequence for a module.
    pub fn get(&self, module_id: ModuleId) -> (seq: u32)
        requires
            self.wf(),
        ensures
            seq == self.spec_get(module_id),
    {
        let i = self.find(module_id);
        if i < self.count {
            self.entries[i].sequence
        } else {
            0
        }
    }

    /// Set/update sequence for a module. Fails with `NoMemory`, changing
    /// nothing, when the module has no entry and all eight are in use.
    pub fn set(&mut self, module_id: ModuleId, seq: u32) -> (r: Result<(), Error>)
        requires
            old(self).wf(),
        ensures
            final(self).wf(),
            final(self)@ == set_spec(old(self)@, module_id, seq),
            set_fits(old(self)@, module_id) ==> r == Ok::<(), Error>(()) && final(self).spec_get(
                module_id,
            ) == seq,
            !set_fits(old(self)@, module_id) ==> r == Err::<(), Error>(Error::NoMemory) && *final(self) == *old(self),
            forall|other: ModuleId|
                other != module_id ==> final(self).spec_get(other) == old(self).spec_get(other),
    {
        proof {
            if set_fits(self@, module_id) {
                lemma_set_then_lookup(self@, module_id, seq);
            }
        }
        let i = self.find(module_id);
        if i < self.count {
            self.entries[i] = VVEntry { module_id, sequence: seq };
            assert(self@ =~= set_spec(old(self)@, module_id, seq));
            return Ok(());
        }
        if self.count >= VV_MAX_ENTRIES {
            return Err(Error::NoMemory);
        }
        self.entries[self.count] = VVEntry { module_id, sequence: seq };
        self.count = self.count + 1;
        assert(self@ =~= set_spec(old(self)@, module_id, seq));
        Ok(())
    }

    /// Increment the sequence of a module and return the new one. Where the
    /// module has no entry and all eight are in use, nothing is recorded.
    pub fn increment(&mut self, module_id: ModuleId) -> (next: u32)
        requires
            old(self).wf(),
        ensures
            final(self).wf(),
            next == next_seq(old(self).spec_get(module_id)),
            final(self)@ == set_spec(old(self)@, module_id, next),
    {
        let current = self.get(module_id);
        let next = current.wrapping_add(1);
        let _ = self.set(module_id, next);
        next
    }

    /// Compare two version vectors.
    pub fn compare(&self, other: &VersionVector) -> (order: VVOrder)
        requires
            self.wf(),
            other.wf(),
        ensures
            order == compare_spec(self@, other@),
    {
        let mut self_dominates = true;
        let mut other_dominates = true;
        let mut i: usize = 0;
        while i < self.count
            invariant
                i <= self.count,
                self.wf(),
                other.wf(),
                self_dominates == (forall|j: int|
                    0 <= j < i ==> (#[trigger] self@[j]).sequence >= lookup(
                        other@,
                        self@[j].module_id,
                    )),
                other_dominates == (forall|j: int|
                    0 <= j < i ==> lookup(other@, (#[trigger] self@[j]).module_id)
                        >= self@[j].sequence),
            decreases self.count - i,
        {
            let self_seq = self.entries[i].sequence;
            let other_seq = other.get(self.entries[i].module_id);
            assert(self@[i as int] == self.entries[i as int]);
            if self_seq < other_seq {
                self_dominates = false;
            }
            if self_seq > other_seq {
                other_dominates = false;
            }
            i += 1;
        }
        let mut k: usize = 0;
        while k < other.count
            invariant
                k <= other.count,
                self.wf(),
                other.wf(),
                self_dominates == ((forall|j: int|
                    0 <= j < self@.len() ==> (#[trigger] self@[j]).sequence >= lookup(
                        other@,
                        self@[j].module_id,
                    )) && (forall|j: int|
                    0 <= j < k ==> lookup(self@, (#[trigger] other@[j]).module_id)
                        >= other@[j].sequence)),
                other_dominates == ((forall|j: int|
                    0 <= j < self@.len() ==> lookup(other@, (#[trigger] self@[j]).module_id)
                        >= self@[j].sequence) && (forall|j: int|
                    0 <= j < k ==> (#[trigger] other@[j]).sequence >= lookup(
                        self@,
                        other@[j].module_id,
                    ))),
            decreases other.count - k,
        {
            let other_seq = other.entries[k].sequence;
            let self_seq = self.get(other.entries[k].module_id);
            assert(other@[k as int] == other.entries[k as int]);
            if self_seq < other_seq {
                self_dominates = false;
            }
            if self_seq > other_seq {
                other_dominates = false;
            }
            k += 1;
        }
        if self_dominates && other_dominates {
            VVOrder::Equal
        } else if self_dominates {
            VVOrder::After
        } else if other_dominates {
            VVOrder::Before
        } else {
            VVOrder::Concurrent
        }
    }

    /// Merge remote version vector into self: each of its entries in turn
    /// replaces what is held for its module where it is higher.
    pub fn merge(&mut self, other: &VersionVector)
        requires
            old(self).wf(),
            other.wf(),
        ensures
            final(self).wf(),
            final(self)@ == merge_spec(old(self)@, other@, other@.len() as int),
    {
        let mut i: usize = 0;
        while i < other.count
            invariant
                i <= other.count,
                self.wf(),
                other.wf(),
                self@ == merge_spec(old(self)@, other@, i as int),
            decreases other.count - i,
        {
            let mod_id = other.entries[i].module_id;
            let other_seq = other.entries[i].sequence;
            assert(other@[i as int] == other.entries[i as int]);
            let self_seq = self.get(mod_id);
            if other_seq > self_seq {
                let _ = self.set(mod_id, other_seq);
            }
            i += 1;
        }
    }
}

impl Default for VersionVector {
    fn default() -> (vv: VersionVector)
        ensures
            vv.wf(),
            vv.count == 0,
            vv@ == Seq::<VVEntry>::empty(),
            forall|i: int|
                0 <= i < 8 ==> (#[trigger] vv.entries[i]) == (VVEntry { module_id: 0, sequence: 0 }),
    {
        VersionVector::new()
    }
}

/// Last-Writer-Wins timestamp for conflict resolution: of two concurrent
/// writes the one with the higher timestamp wins, and among equal timestamps
/// the one with the higher origin id.
#[derive(Debug, Clone, Copy, PartialEq, Eq, Structural, PartialOrd, Ord)]
pub struct LWWTimestamp {
    /// Timestamp (higher wins)
    pub timestamp_us: u32,
    /// Tiebreaker (higher wins)
    pub origin_id: ModuleId,
}

impl LWWTimestamp {
    /// Whether `self` wins over `other`.
    pub open spec fn spec_is_newer(self, other: LWWTimestamp) -> bool {
        self.timestamp_us > other.timestamp_us || (self.timestamp_us == other.timestamp_us
            && self.origin_id > other.origin_id)
    }

    /// Create new LWW timestamp.
    pub fn new(timestamp_us: u32, origin_id: ModuleId) -> (t: LWWTimestamp)
        ensures
            t.timestamp_us == timestamp_us,
            t.origin_id == origin_id,
    {
        LWWTimestamp { timestamp_us, origin_id }
    }

    /// Check if self is newer than other.
    pub fn is_newer(&self, other: &LWWTimestamp) -> (newer: bool)
        ensures
            newer == self.spec_is_newer(*other),
    {
        if self.timestamp_us != other.timestamp_us {
            return self.timestamp_us > other.timestamp_us;
        }
        self.origin_id > other.origin_id
    }
}

/// Of two different timestamps exactly one is newer than the other, and none
/// is newer than itself.
pub proof fn lemma_lww_total(a: LWWTimestamp, b: LWWTimestamp)
    ensures
        !a.spec_is_newer(a),
        a != b ==> (a.spec_is_newer(b) <==> !b.spec_is_newer(a)),
{
}

/// Extended event format for gossip protocol, with origin tracking for
/// causality and deduplication.
#[derive(Debug, Clone, Copy)]
pub struct EventV2 {
    /// Local sequence (for compat)
    pub sequence: u32,
    /// Event timestamp
    pub timestamp_us: u32,
    /// Event type code
    pub event_type: u8,
    /// Event flags
    pub flags: u8,
    /// Module that first emitted the event
    pub origin_id: ModuleId,
    /// Hops from origin (TTL)
    pub hop_count: u8,
    /// Sequence at origin module
    pub origin_seq: u32,
    /// Event payload (20 bytes)
    pub payload: [u8; 20],
}

/// Event type: state transition.
pub const EVENT_STATE_TRANSITION: u8 = 0x01;

/// Event type: field published.
pub const EVENT_FIELD_PUBLISHED: u8 = 0x02;

/// Event type: neighbor joined.
pub const EVENT_NEIGHBOR_JOINED: u8 = 0x03;

/// Event type: neighbor left.
pub const EVENT_NEIGHBOR_LEFT: u8 = 0x04;

/// Event type: consensus start.
pub const EVENT_CONSENSUS_START: u8 = 0x05;

/// Event type: consensus vote.
pub const EVENT_CONSENSUS_VOTE: u8 = 0x06;

/// Event type: consensus result.
pub const EVENT_CONSENSUS_RESULT: u8 = 0x07;

/// Event types from here on are user-defined.
pub const EVENT_USER_DEFINED: u8 = 0x80;

/// Event flag: requires acknowledgment.
pub const EVENT_FLAG_REQUIRES_ACK: u8 = 0x01;

/// Event flag: priority event.
pub const EVENT_FLAG_PRIORITY: u8 = 0x02;

/// Event flag: replayed from storage.
pub const EVENT_FLAG_REPLAYED: u8 = 0x04;

impl EventV2 {
    /// Whether the event is blank: every field zero.
    pub open spec fn spec_blank(self) -> bool {
        &&& self.sequence == 0
        &&& self.timestamp_us == 0
        &&& self.event_type == 0
        &&& self.flags == 0
        &&& self.origin_id == 0
        &&& self.hop_count == 0
        &&& self.origin_seq == 0
        &&& forall|i: int| 0 <= i < 20 ==> (#[trigger] self.payload[i]) == 0
    }

    /// Create LWW timestamp from event.
    pub fn lww_timestamp(&self) -> (t: LWWTimestamp)
        ensures
            t.timestamp_us == self.timestamp_us,
            t.origin_id == self.origin_id,
    {
        LWWTimestamp::new(self.timestamp_us, self.origin_id)
    }
}

impl Default for EventV2 {
    fn default() -> (e: EventV2)
        ensures
            e.spec_blank(),
    {
        EventV2 {
            sequence: 0,
            timestamp_us: 0,
            event_type: 0,
            flags: 0,
            origin_id: 0,
            hop_count: 0,
            origin_seq: 0,
            payload: [0u8;20],
        }
    }
}

/// Compressed version vector summary: only the sequence numbers (mod 256)
/// of up to seven neighbors.
#[derive(Debug, Clone, Copy)]
pub struct VVSummary {
    /// Packed sequences (mod 256)
    pub seqs: [u8; 7],
}

/// Number of neighbors that a summary covers: seven at most.
pub open spec fn summary_len(neighbor_ids: Seq<ModuleId>) -> int {
    if neighbor_ids.len() < 7 {
        neighbor_ids.len() as int
    } else {
        7
    }
}

/// The entries after the first `k` slots of a summary are expanded: each
/// non-zero slot in turn sets the sequence of its neighbor.
pub open spec fn expand_spec(seqs: Seq<u8>, neighbor_ids: Seq<ModuleId>, k: int) -> Seq<VVEntry>
    decreases k,
{
    if k <= 0 {
        Seq::empty()
    } else {
        let prev = expand_spec(seqs, neighbor_ids, k - 1);
        if seqs[k - 1] > 0 {
            set_spec(prev, neighbor_ids[k - 1], seqs[k - 1] as u32)
        } else {
            prev
        }
    }
}

impl VVSummary {
    /// Create summary from version vector: slot `i` holds the sequence of
    /// neighbor `i` modulo 256, and the slots without a neighbor hold zero.
    pub fn from_vv(vv: &VersionVector, neighbor_ids: &[ModuleId]) -> (s: VVSummary)
        requires
            vv.wf(),
        ensures
            forall|i: int|
                0 <= i < summary_len(neighbor_ids@) ==> (#[trigger] s.seqs[i]) == vv.spec_get(
                    neighbor_ids@[i],
                ) % 256,
            forall|i: int| summary_len(neighbor_ids@) <= i < 7 ==> (#[trigger] s.seqs[i]) == 0,
    {
        let mut summary = VVSummary { seqs: [0u8;7] };
        let n: usize = if neighbor_ids.len() < 7 {
            neighbor_ids.len()
        } else {
            7
        };
        let mut i: usize = 0;
        while i < n
            invariant
                i <= n,
                n == summary_len(neighbor_ids@),
                vv.wf(),
                forall|j: int|
                    0 <= j < i ==> (#[trigger] summary.seqs[j]) == vv.spec_get(neighbor_ids@[j])
                        % 256,
                forall|j: int| i <= j < 7 ==> (#[trigger] summary.seqs[j]) == 0,
            decreases n - i,
        {
            let seq: u32 = vv.get(neighbor_ids[i]);
            let low: u32 = seq & 0xFF;
            assert(low == seq % 256) by (bit_vector)
                requires
                    low == seq & 0xFF,
            ;
            summary.seqs[i] = low as u8;
            i += 1;
        }
        summary
    }

    /// Expand summary to version vector: each non-zero slot sets the
    /// sequence of its neighbor.
    pub fn to_vv(&self, neighbor_ids: &[ModuleId]) -> (vv: VersionVector)
        ensures
            vv.wf(),
            vv@ == expand_spec(self.seqs@, neighbor_ids@, summary_len(neighbor_ids@)),
    {
        let mut vv = VersionVector::new();
        let n: usize = if neighbor_ids.len() < 7 {
            neighbor_ids.len()
        } else {
            7
        };
        let mut i: usize = 0;
        while i < n
            invariant
                i <= n,
                n == summary_len(neighbor_ids@),
                vv.wf(),
                vv@ == expand_spec(self.seqs@, neighbor_ids@, i as int),
            decreases n - i,
        {
            if self.seqs[i] > 0 {
                let _ = vv.set(neighbor_ids[i], self.seqs[i] as u32);
            }
            i += 1;
        }
        vv
    }
}

impl Default for VVSummary {
    fn default() -> (s: VVSummary)
        ensures
            forall|i: int| 0 <= i < 7 ==> (#[trigger] s.seqs[i]) == 0,
    {
        VVSummary { seqs: [0u8;7] }
    }
}

/// Gossip protocol statistics.
#[derive(Debug, Clone, Copy, PartialEq, Eq, Structural)]
pub struct GossipStats {
    /// Events sent via gossip
    pub events_sent: u32,
    /// Events received via gossip
    pub events_received: u32,
    /// Duplicate events filtered
    pub duplicates: u32,
    /// Sequence gaps detected
    pub gaps_detected: u32,
    /// Gaps successfully filled
    pub gaps_filled: u32,
    /// Events dropped at hop limit
    pub ttl_expired: u32,
}

impl GossipStats {
    /// Statistics with every counter at zero.
    pub open spec fn spec_zero() -> GossipStats {
        GossipStats {
            events_sent: 0,
            events_received: 0,
            duplicates: 0,
            gaps_detected: 0,
            gaps_filled: 0,
            ttl_expired: 0,
        }
    }
}

impl Default for GossipStats {
    fn default() -> (s: GossipStats)
        ensures
            s == GossipStats::spec_zero(),
    {
        GossipStats {
            events_sent: 0,
            events_received: 0,
            duplicates: 0,
            gaps_detected: 0,
            gaps_filled: 0,
            ttl_expired: 0,
        }
    }
}

/// Per-neighbor gossip state.
#[derive(Debug, Clone, Copy, PartialEq, Eq, Structural)]
pub struct NeighborGossip {
    /// Neighbor module ID
    pub id: ModuleId,
    /// Last sequence seen from this neighbor
    pub last_seen_seq: u32,
    /// Our sync cursor to this neighbor
    pub cursor: u32,
    /// Last anti-entropy sync time
    pub last_sync: TimeUs,
}

/// Gossip protocol context.
pub struct GossipContext {
    /// This module's ID
    pub my_id: ModuleId,
    /// Our version vector
    pub vv: VersionVector,
    /// Next local sequence number
    pub local_sequence: u32,
    /// Neighbor tracking
    pub neighbors: [NeighborGossip; 7],
    pub neighbor_count: usize,
    /// Event buffer for outgoing gossip
    pub pending_events: [EventV2; 8],
    pub pending_count: usize,
    /// Gap detection buffer
    pub buffered_events: [EventV2; 4],
    pub buffered_count: usize,
    /// Last gossip tick time
    pub last_gossip_tick: TimeUs,
    /// Last sync time
    pub last_sync: TimeUs,
    /// Statistics
    pub stats: GossipStats,
}

/// Position of the first neighbor with the id from position `from` on, or
/// the number of neighbors where there is none.
pub open spec fn find_neighbor(neighbors: Seq<NeighborGossip>, id: ModuleId, from: int) -> int
    decreases neighbors.len() - from,
{
    if from >= neighbors.len() {
        neighbors.len() as int
    } else if from >= 0 && neighbors[from].id == id {
        from
    } else {
        find_neighbor(neighbors, id, from + 1)
    }
}

/// A 32-bit counter after one more event, wrapping at its limit.
pub open spec fn bump(counter: u32) -> u32 {
    if counter == u32::MAX {
        0
    } else {
        (counter + 1) as u32
    }
}

/// The event that a module emits: stamped with the module's id and its
/// local sequence, not yet forwarded, the payload filled up with zeros.
pub open spec fn emitted_event(
    event: EventV2,
    my_id: ModuleId,
    local_sequence: u32,
    event_type: u8,
    payload: Seq<u8>,
    now: TimeUs,
) -> bool {
    &&& event.sequence == local_sequence
    &&& event.timestamp_us == now % 0x1_0000_0000
    &&& event.event_type == event_type
    &&& event.flags == 0
    &&& event.origin_id == my_id
    &&& event.hop_count == 0
    &&& event.origin_seq == local_sequence
    &&& forall|i: int|
        0 <= i < 20 ==> (#[trigger] event.payload[i]) == if i < payload.len() {
            payload[i]
        } else {
            0
        }
}

/// The version vector entries and the gap buffer after the buffered events
/// from position `i` on are tried in turn: an event that is the next one
/// expected from its origin is recorded and leaves the buffer, and the event
/// that takes its place is tried next.
pub open spec fn drain_spec(entries: Seq<VVEntry>, buffered: Seq<EventV2>, i: int) -> (
    Seq<VVEntry>,
    Seq<EventV2>,
)
    decreases buffered.len() - i,
{
    if i < 0 || i >= buffered.len() {
        (entries, buffered)
    } else if buffered[i].origin_seq == next_seq(lookup(entries, buffered[i].origin_id)) {
        drain_spec(
            set_spec(entries, buffered[i].origin_id, buffered[i].origin_seq),
            buffered.remove(i),
            i,
        )
    } else {
        drain_spec(entries, buffered, i + 1)
    }
}

/// How a received event is classified against what is known of its origin.
pub open spec fn event_verdict(entries: Seq<VVEntry>, event: EventV2) -> Result<(), Error> {
    let known = lookup(entries, event.origin_id);
    if event.origin_seq <= known {
        Err(Error::AlreadyExists)
    } else if event.origin_seq > known + 1 {
        Err(Error::NotFound)
    } else {
        Ok(())
    }
}

impl GossipContext {
    /// Validity of a context: the counts stay within the tables.
    pub open spec fn wf(self) -> bool {
        &&& self.vv.wf()
        &&& self.neighbor_count <= 7
        &&& self.pending_count <= 8
        &&& self.buffered_count <= 4
    }

    /// The neighbors in use, in the order in which they were added.
    pub open spec fn spec_neighbors(self) -> Seq<NeighborGossip> {
        self.neighbors@.subrange(0, self.neighbor_count as int)
    }

    /// The events waiting to be sent, oldest first.
    pub open spec fn spec_pending(self) -> Seq<EventV2> {
        self.pending_events@.subrange(0, self.pending_count as int)
    }

    /// The events held back because an earlier one is missing.
    pub open spec fn spec_buffered(self) -> Seq<EventV2> {
        self.buffered_events@.subrange(0, self.buffered_count as int)
    }

    /// Create new gossip context: the module itself is known with sequence
    /// zero, its next event gets sequence one, and nothing else is held.
    pub fn new(my_id: ModuleId) -> (ctx: GossipContext)
        ensures
            ctx.wf(),
            ctx.my_id == my_id,
            ctx.vv@ == seq![VVEntry { module_id: my_id, sequence: 0 }],
            ctx.local_sequence == 1,
            ctx.neighbor_count == 0,
            ctx.pending_count == 0,
            ctx.buffered_count == 0,
            ctx.spec_neighbors() == Seq::<NeighborGossip>::empty(),
            ctx.spec_pending() == Seq::<EventV2>::empty(),
            ctx.spec_buffered() == Seq::<EventV2>::empty(),
            ctx.last_gossip_tick == 0,
            ctx.last_sync == 0,
            ctx.stats == GossipStats::spec_zero(),
    {
        let blank = NeighborGossip { id: 0, last_seen_seq: 0, cursor: 0, last_sync: 0 };
        let mut ctx = GossipContext {
            my_id,
            vv: VersionVector::new(),
            local_sequence: 1,
            neighbors: [blank;7],
            neighbor_count: 0,
            pending_events: [EventV2::default();8],
            pending_count: 0,
            buffered_events: [EventV2::default();4],
            buffered_count: 0,
            last_gossip_tick: 0,
            last_sync: 0,
            stats: GossipStats::default(),
        };
        let _ = ctx.vv.set(my_id, 0);
        assert(ctx.vv@ =~= seq![VVEntry { module_id: my_id, sequence: 0 }]);
        assert(ctx.spec_neighbors() =~= Seq::<NeighborGossip>::empty());
        assert(ctx.spec_pending() =~= Seq::<EventV2>::empty());
        assert(ctx.spec_buffered() =~= Seq::<EventV2>::empty());
        ctx
    }

    /// Emit local event (will be gossiped).
    ///
    /// Fails with `InvalidArg` for a payload of more than 20 bytes and with
    /// `NoMemory` when eight events are pending, changing nothing either way.
    /// Otherwise the event goes behind the pending ones, the local sequence
    /// advances, and so does the module's own entry in the version vector.
    pub fn emit(&mut self, event_type: u8, payload: &[u8], now: TimeUs) -> (r: Result<(), Error>)
        requires
            old(self).wf(),
        ensures
            final(self).wf(),
            payload@.len() > 20 ==> r == Err::<(), Error>(Error::InvalidArg) && *final(self)
                == *old(self),
            payload@.len() <= 20 && old(self).pending_count >= 8 ==> r == Err::<(), Error>(
                Error::NoMemory,
            ) && *final(self) == *old(self),
            payload@.len() <= 20 && old(self).pending_count < 8 ==> {
                &&& r == Ok::<(), Error>(())
                &&& final(self).pending_count == old(self).pending_count + 1
                &&& final(self).spec_pending().drop_last() == old(self).spec_pending()
                &&& emitted_event(
                    final(self).spec_pending().last(),
                    old(self).my_id,
                    old(self).local_sequence,
                    event_type,
                    payload@,
                    now,
                )
                &&& final(self).local_sequence == bump(old(self).local_sequence)
                &&& final(self).vv@ == set_spec(
                    old(self).vv@,
                    old(self).my_id,
                    next_seq(old(self).vv.spec_get(old(self).my_id)),
                )
                &&& *final(self) == (GossipContext {
                    pending_events: final(self).pending_events,
                    pending_count: final(self).pending_count,
                    local_sequence: final(self).local_sequence,
                    vv: final(self).vv,
                    ..*old(self)
                })
            },
    {
        let len: usize = payload.len();
        if len > 20 {
            return Err(Error::InvalidArg);
        }
        if self.pending_count >= 8 {
            return Err(Error::NoMemory);
        }
        let mut event = EventV2::default();
        event.sequence = self.local_sequence;
        let stamp: u32 = #[verifier::truncate] (now as u32);
        assert(stamp as u64 == now % 0x1_0000_0000) by (bit_vector)
            requires
                stamp == now as u32,
        ;
        event.timestamp_us = stamp;
        event.event_type = event_type;
        event.flags = 0;
        event.origin_id = self.my_id;
        event.hop_count = 0;
        event.origin_seq = self.local_sequence;
        let mut i: usize = 0;
        while i < len
            invariant
                i <= len,
                len == payload@.len(),
                len <= 20,
                event.sequence == self.local_sequence,
                event.timestamp_us == now % 0x1_0000_0000,
                event.event_type == event_type,
                event.flags == 0,
                event.origin_id == self.my_id,
                event.hop_count == 0,
                event.origin_seq == self.local_sequence,
                forall|j: int| 0 <= j < i ==> (#[trigger] event.payload[j]) == payload@[j],
                forall|j: int| i <= j < 20 ==> (#[trigger] event.payload[j]) == 0,
            decreases len - i,
        {
            event.payload[i] = payload[i];
            i += 1;
        }
        self.pending_events[self.pending_count] = event;
        self.pending_count = self.pending_count + 1;
        self.local_sequence = self.local_sequence.wrapping_add(1);
        let _ = self.vv.increment(self.my_id);
        assert(self.spec_pending().drop_last() =~= old(self).spec_pending());
        Ok(())
    }

    /// Handle received event from gossip.
    ///
    /// Returns `Ok` if the event is the next one expected from its origin:
    /// it is recorded, and the held-back events that now fit are recorded
    /// too. Returns `AlreadyExists` for a duplicate, and `NotFound` where an
    /// earlier event is missing: the event is then held back while there is
    /// room for it.
    pub fn handle_event(&mut self, event: &EventV2, _sender: ModuleId) -> (r: Result<(), Error>)
        requires
            old(self).wf(),
        ensures
            final(self).wf(),
            r == event_verdict(old(self).vv@, *event),
            final(self).stats.events_received == bump(old(self).stats.events_received),
            final(self).stats.events_sent == old(self).stats.events_sent,
            final(self).stats.gaps_filled == old(self).stats.gaps_filled,
            final(self).stats.duplicates == if r == Err::<(), Error>(Error::AlreadyExists) {
                bump(old(self).stats.duplicates)
            } else {
                old(self).stats.duplicates
            },
            final(self).stats.gaps_detected == if r == Err::<(), Error>(Error::NotFound) {
                bump(old(self).stats.gaps_detected)
            } else {
                old(self).stats.gaps_detected
            },
            final(self).stats.ttl_expired == if r.is_ok() && event.hop_count >= GOSSIP_MAX_HOPS {
                bump(old(self).stats.ttl_expired)
            } else {
                old(self).stats.ttl_expired
            },
            r == Err::<(), Error>(Error::AlreadyExists) ==> final(self).vv == old(self).vv
                && final(self).spec_buffered() == old(self).spec_buffered(),
            r == Err::<(), Error>(Error::NotFound) ==> final(self).vv == old(self).vv && final(self).spec_buffered() == if old(self).buffered_count < 4 {
                old(self).spec_buffered().push(*event)
            } else {
                old(self).spec_buffered()
            },
            r.is_ok() ==> (final(self).vv@, final(self).spec_buffered()) == drain_spec(
                set_spec(old(self).vv@, event.origin_id, event.origin_seq),
                old(self).spec_buffered(),
                0,
            ),
            *final(self) == (GossipContext {
                vv: final(self).vv,
                buffered_events: final(self).buffered_events,
                buffered_count: final(self).buffered_count,
                stats: final(self).stats,
                ..*old(self)
            }),
    {
        self.stats.events_received = self.stats.events_received.wrapping_add(1);
        let known_seq = self.vv.get(event.origin_id);
        if event.origin_seq <= known_seq {
            self.stats.duplicates = self.stats.duplicates.wrapping_add(1);
            return Err(Error::AlreadyExists);
        }
        if event.origin_seq > known_seq + 1 {
            self.stats.gaps_detected = self.stats.gaps_detected.wrapping_add(1);
            if self.buffered_count < 4 {
                self.buffered_events[self.buffered_count] = *event;
                self.buffered_count = self.buffered_count + 1;
                assert(self.spec_buffered() =~= old(self).spec_buffered().push(*event));
            }
            return Err(Error::NotFound);
        }
        if event.hop_count >= GOSSIP_MAX_HOPS {
            self.stats.ttl_expired = self.stats.ttl_expired.wrapping_add(1);
        }
        let _ = self.vv.set(event.origin_id, event.origin_seq);
        self.process_buffered_events();
        Ok(())
    }

    /// Process buffered events that can now be applied.
    pub fn process_buffered_events(&mut self)
        requires
            old(self).wf(),
        ensures
            final(self).wf(),
            (final(self).vv@, final(self).spec_buffered()) == drain_spec(
                old(self).vv@,
                old(self).spec_buffered(),
                0,
            ),
            *final(self) == (GossipContext {
                vv: final(self).vv,
                buffered_events: final(self).buffered_events,
                buffered_count: final(self).buffered_count,
                ..*old(self)
            }),
    {
        let ghost target = drain_spec(old(self).vv@, old(self).spec_buffered(), 0);
        let mut i: usize = 0;
        while i < self.buffered_count
            invariant
                self.wf(),
                i <= self.buffered_count,
                target == drain_spec(self.vv@, self.spec_buffered(), i as int),
                *self == (GossipContext {
                    vv: self.vv,
                    buffered_events: self.buffered_events,
                    buffered_count: self.buffered_count,
                    ..*old(self)
                }),
            decreases self.buffered_count - i,
        {
            let buffered = self.buffered_events[i];
            assert(self.spec_buffered()[i as int] == buffered);
            let ghost old_entries = self.vv@;
            let expected = self.vv.get(buffered.origin_id).wrapping_add(1);
            if buffered.origin_seq == expected {
                let _ = self.vv.set(buffered.origin_id, buffered.origin_seq);
                let ghost before = self.spec_buffered();
                let ghost events = self.buffered_events;
                let count: usize = self.buffered_count;
                let mut j: usize = i;
                while j + 1 < count
                    invariant
                        i <= j < count,
                        count == self.buffered_count,
                        count <= 4,
                        self.vv.wf(),
                        self.neighbor_count <= 7,
                        self.pending_count <= 8,
                        *self == (GossipContext {
                            vv: self.vv,
                            buffered_events: self.buffered_events,
                            buffered_count: self.buffered_count,
                            ..*old(self)
                        }),
                        self.vv@ == set_spec(
                            old_entries,
                            buffered.origin_id,
                            buffered.origin_seq,
                        ),
                        forall|t: int| 0 <= t < i ==> (#[trigger] self.buffered_events[t]) == events[t],
                        forall|t: int|
                            i <= t < j ==> (#[trigger] self.buffered_events[t]) == events[t + 1],
                        forall|t: int| j <= t < 4 ==> (#[trigger] self.buffered_events[t]) == events[t],
                    decreases count - j,
                {
                    let next = self.buffered_events[j + 1];
                    self.buffered_events[j] = next;
                    j += 1;
                }
                self.buffered_count = count - 1;
                assert(self.spec_buffered() =~= before.remove(i as int));
            } else {
                i += 1;
            }
        }
    }

    /// Get number of pending events.
    pub fn pending_count(&self) -> (n: usize)
        ensures
            n == self.pending_count,
    {
        self.pending_count
    }

    /// Get pending events for sending.
    pub fn pending_events(&self) -> (events: &[EventV2])
        requires
            self.wf(),
        ensures
            events@ == self.spec_pending(),
    {
        vstd::slice::slice_subrange(
            vstd::array::array_as_slice(&self.pending_events),
            0,
            self.pending_count,
        )
    }

    /// Clear pending events after sending.
    pub fn clear_pending(&mut self)
        ensures
            *final(self) == (GossipContext { pending_count: 0, ..*old(self) }),
    {
        self.pending_count = 0;
    }

    /// Get gossip statistics.
    pub fn stats(&self) -> (stats: &GossipStats)
        ensures
            *stats == self.stats,
    {
        &self.stats
    }

    /// Reset statistics.
    pub fn reset_stats(&mut self)
        ensures
            *final(self) == (GossipContext { stats: GossipStats::spec_zero(), ..*old(self) }),
    {
        self.stats = GossipStats::default();
    }

    /// Get version vector.
    pub fn version_vector(&self) -> (vv: &VersionVector)
        ensures
            *vv == self.vv,
    {
        &self.vv
    }

    /// Get local sequence.
    pub fn local_sequence(&self) -> (seq: u32)
        ensures
            seq == self.local_sequence,
    {
        self.local_sequence
    }

    /// Get neighbor IDs, in the order in which the neighbors were added.
    pub fn neighbor_ids(&self) -> (ids: Vec<ModuleId>)
        requires
            self.wf(),
        ensures
            ids@.len() == self.neighbor_count,
            forall|i: int| 0 <= i < ids@.len() ==> (#[trigger] ids@[i]) == self.neighbors[i].id,
    {
        let mut ids: Vec<ModuleId> = Vec::new();
        let mut i: usize = 0;
        while i < self.neighbor_count
            invariant
                i <= self.neighbor_count,
                self.wf(),
                ids@.len() == i,
                forall|j: int| 0 <= j < i ==> (#[trigger] ids@[j]) == self.neighbors[j].id,
            decreases self.neighbor_count - i,
        {
            ids.push(self.neighbors[i].id);
            i += 1;
        }
        ids
    }

    /// Merge remote version vector.
    pub fn merge_vv(&mut self, remote: &VersionVector)
        requires
            old(self).wf(),
            remote.wf(),
        ensures
            final(self).wf(),
            final(self).vv@ == merge_spec(old(self).vv@, remote@, remote@.len() as int),
            *final(self) == (GossipContext { vv: final(self).vv, ..*old(self) }),
    {
        self.vv.merge(remote);
    }

    /// Position of the first neighbor with the id, or the number of
    /// neighbors.
    fn neighbor_index(&self, neighbor_id: ModuleId) -> (i: usize)
        requires
            self.wf(),
        ensures
            i == find_neighbor(self.spec_neighbors(), neighbor_id, 0),
            i <= self.neighbor_count,
            i < self.neighbor_count ==> self.neighbors[i as int].id == neighbor_id,
    {
        let mut i: usize = 0;
        while i < self.neighbor_count
            invariant
                i <= self.neighbor_count,
                self.wf(),
                find_neighbor(self.spec_neighbors(), neighbor_id, 0) == find_neighbor(
                    self.spec_neighbors(),
                    neighbor_id,
                    i as int,
                ),
            decreases self.neighbor_count - i,
        {
            if self.neighbors[i].id == neighbor_id {
                return i;
            }
            i += 1;
        }
        i
    }

    /// Add neighbor to gossip. Fails with `AlreadyExists` for a neighbor
    /// that is there already and with `NoMemory` beyond seven, changing
    /// nothing either way.
    pub fn add_neighbor(&mut self, neighbor_id: ModuleId) -> (r: Result<(), Error>)
        requires
            old(self).wf(),
        ensures
            final(self).wf(),
            match r {
                Ok(_) => {
                    &&& find_neighbor(old(self).spec_neighbors(), neighbor_id, 0) == old(self).neighbor_count
                    &&& old(self).neighbor_count < 7
                    &&& final(self).spec_neighbors() == old(self).spec_neighbors().push(
                        NeighborGossip { id: neighbor_id, last_seen_seq: 0, cursor: 0, last_sync: 0 },
                    )
                    &&& *final(self) == (GossipContext {
                        neighbors: final(self).neighbors,
                        neighbor_count: final(self).neighbor_count,
                        ..*old(self)
                    })
                },
                Err(e) => {
                    &&& *final(self) == *old(self)
                    &&& e == if find_neighbor(old(self).spec_neighbors(), neighbor_id, 0) < old(self).neighbor_count {
                        Error::AlreadyExists
                    } else {
                        Error::NoMemory
                    }
                    &&& find_neighbor(old(self).spec_neighbors(), neighbor_id, 0) < old(self).neighbor_count || old(self).neighbor_count >= 7
                },
            },
    {
        let i = self.neighbor_index(neighbor_id);
        if i < self.neighbor_count {
            return Err(Error::AlreadyExists);
        }
        if self.neighbor_count >= 7 {
            return Err(Error::NoMemory);
        }
        self.neighbors[self.neighbor_count] = NeighborGossip {
            id: neighbor_id,
            last_seen_seq: 0,
            cursor: 0,
            last_sync: 0,
        };
        self.neighbor_count = self.neighbor_count + 1;
        assert(self.spec_neighbors() =~= old(self).spec_neighbors().push(
            NeighborGossip { id: neighbor_id, last_seen_seq: 0, cursor: 0, last_sync: 0 },
        ));
        Ok(())
    }

    /// Remove neighbor from gossip: the first neighbor with the id leaves,
    /// and those behind it move up. Fails with `NotFound`, changing nothing,
    /// where there is none.
    pub fn remove_neighbor(&mut self, neighbor_id: ModuleId) -> (r: Result<(), Error>)
        requires
            old(self).wf(),
        ensures
            final(self).wf(),
            match r {
                Ok(_) => {
                    &&& find_neighbor(old(self).spec_neighbors(), neighbor_id, 0) < old(self).neighbor_count
                    &&& final(self).spec_neighbors() == old(self).spec_neighbors().remove(
                        find_neighbor(old(self).spec_neighbors(), neighbor_id, 0),
                    )
                    &&& *final(self) == (GossipContext {
                        neighbors: final(self).neighbors,
                        neighbor_count: final(self).neighbor_count,
                        ..*old(self)
                    })
                },
                Err(e) => {
                    &&& e == Error::NotFound
                    &&& *final(self) == *old(self)
                    &&& find_neighbor(old(self).spec_neighbors(), neighbor_id, 0) == old(self).neighbor_count
                },
            },
    {
        let i = self.neighbor_index(neighbor_id);
        if i >= self.neighbor_count {
            return Err(Error::NotFound);
        }
        let count: usize = self.neighbor_count;
        let mut j: usize = i;
        while j + 1 < count
            invariant
                i <= j < count,
                count == self.neighbor_count,
                count <= 7,
                *self == (GossipContext { neighbors: self.neighbors, ..*old(self) }),
                forall|t: int| 0 <= t < i ==> (#[trigger] self.neighbors[t]) == old(self).neighbors[t],
                forall|t: int|
                    i <= t < j ==> (#[trigger] self.neighbors[t]) == old(self).neighbors[t + 1],
                forall|t: int| j <= t < 7 ==> (#[trigger] self.neighbors[t]) == old(self).neighbors[t],
            decreases count - j,
        {
            let next = self.neighbors[j + 1];
            self.neighbors[j] = next;
            j += 1;
        }
        self.neighbor_count = count - 1;
        assert(self.spec_neighbors() =~= old(self).spec_neighbors().remove(i as int));
        Ok(())
    }
}

} // verus!
