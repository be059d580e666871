//! Base types and configuration constants shared by every component.

use vstd::prelude::*;
use crate::fixed_point::Fixed;

verus! {

/// Number of topological neighbors per module.
pub const K_NEIGHBORS: usize = 7;

/// Maximum modules in a cluster.
pub const MAX_MODULES: usize = 256;

/// Maximum tasks per module.
pub const MAX_TASKS_PER_MODULE: usize = 8;

/// Field decay time constant in microseconds.
pub const FIELD_DECAY_TAU_US: u64 = 100_000;

/// Heartbeat period in microseconds.
pub const HEARTBEAT_PERIOD_US: u64 = 10_000;

/// Heartbeat timeout count.
pub const HEARTBEAT_TIMEOUT_COUNT: u8 = 5;

/// Vote timeout in microseconds.
pub const VOTE_TIMEOUT_US: u64 = 50_000;

/// Maximum concurrent ballots.
pub const MAX_BALLOTS: usize = 4;

/// Number of field components.
pub const FIELD_COUNT: usize = 5;

/// Module identifier (0 = invalid).
pub type ModuleId = u8;

/// Task identifier within a module.
pub type TaskId = u8;

/// Ballot identifier for consensus voting.
pub type BallotId = u16;

/// Timestamp in microseconds.
pub type TimeUs = u64;

/// Tick count.
pub type Tick = u32;

/// Reserved id of a slot that holds no published data.
pub const INVALID_MODULE_ID: ModuleId = 0;

/// Reserved id of no ballot.
pub const INVALID_BALLOT_ID: BallotId = 0;

/// Broadcast address.
pub const BROADCAST_ID: ModuleId = 0xFF;

/// Error codes.
#[derive(Debug, Clone, Copy, PartialEq, Eq, Structural)]
pub enum Error {
    /// Invalid argument provided
    InvalidArg,
    /// Out of memory
    NoMemory,
    /// Operation timed out
    Timeout,
    /// Resource is busy
    Busy,
    /// Item not found
    NotFound,
    /// Item already exists
    AlreadyExists,
    /// Quorum not reached
    NoQuorum,
    /// Proposal was inhibited
    Inhibited,
    /// Neighbor was lost
    NeighborLost,
    /// Field has expired
    FieldExpired,
    /// HAL failure
    HalFailure,
}

/// Module operational state.
#[derive(Debug, Clone, Copy, PartialEq, Eq, Structural)]
pub enum ModuleState {
    /// Initializing, not yet in mesh
    Init,
    /// Discovering neighbors
    Discovering,
    /// Normal operation
    Active,
    /// Some neighbors lost
    Degraded,
    /// No neighbors reachable
    Isolated,
    /// Mesh reformation in progress
    Reforming,
    /// Graceful shutdown
    Shutdown,
}

impl Default for ModuleState {
    fn default() -> (s: ModuleState)
        ensures
            s == ModuleState::Init,
    {
        ModuleState::Init
    }
}

/// Neighbor health state.
#[derive(Debug, Clone, Copy, PartialEq, Eq, Structural)]
pub enum HealthState {
    /// Never seen
    Unknown,
    /// Recent heartbeat received
    Alive,
    /// Missed 1-2 heartbeats
    Suspect,
    /// Timeout exceeded
    Dead,
}

impl Default for HealthState {
    fn default() -> (s: HealthState)
        ensures
            s == HealthState::Unknown,
    {
        HealthState::Unknown
    }
}

/// Vote value.
#[derive(Debug, Clone, Copy, PartialEq, Eq, Structural)]
pub enum VoteValue {
    /// No vote cast
    Abstain,
    /// Approve proposal
    Yes,
    /// Reject proposal
    No,
    /// Block competing proposal
    Inhibit,
}

impl Default for VoteValue {
    fn default() -> (v: VoteValue)
        ensures
            v == VoteValue::Abstain,
    {
        VoteValue::Abstain
    }
}

/// Vote result.
#[derive(Debug, Clone, Copy, PartialEq, Eq, Structural)]
pub enum VoteResult {
    /// Voting in progress
    Pending,
    /// Threshold reached (approved)
    Approved,
    /// Threshold not reached
    Rejected,
    /// Voting timed out
    Timeout,
    /// Cancelled by inhibition
    Cancelled,
}

impl Default for VoteResult {
    fn default() -> (v: VoteResult)
        ensures
            v == VoteResult::Pending,
    {
        VoteResult::Pending
    }
}

/// Field component identifiers.
#[derive(Debug, Clone, Copy, PartialEq, Eq, Structural)]
pub enum FieldComponent {
    /// Computational load potential
    Load,
    /// Thermal gradient
    Thermal,
    /// Power consumption
    Power,
    /// Application-defined 0
    Custom0,
    /// Application-defined 1
    Custom1,
}

impl FieldComponent {
    /// Position of the component in a field's vector.
    pub open spec fn spec_index(self) -> int {
        match self {
            FieldComponent::Load => 0,
            FieldComponent::Thermal => 1,
            FieldComponent::Power => 2,
            FieldComponent::Custom0 => 3,
            FieldComponent::Custom1 => 4,
        }
    }

    /// Position of the component in a field's vector.
    pub fn index(self) -> (i: usize)
        ensures
            i == self.spec_index(),
            i < FIELD_COUNT,
    {
        match self {
            FieldComponent::Load => 0,
            FieldComponent::Thermal => 1,
            FieldComponent::Power => 2,
            FieldComponent::Custom0 => 3,
            FieldComponent::Custom1 => 4,
        }
    }

    /// All components, in the order of their positions.
    pub fn all() -> (a: [FieldComponent; 5])
        ensures
            forall|i: int| 0 <= i < 5 ==> (#[trigger] a[i]).spec_index() == i,
    {
        [
            FieldComponent::Load,
            FieldComponent::Thermal,
            FieldComponent::Power,
            FieldComponent::Custom0,
            FieldComponent::Custom1,
        ]
    }
}

/// Coordination field published by each module: a vector of decaying
/// scalars with its provenance.
#[derive(Debug, Clone, Copy)]
pub struct Field {
    /// Field values
    pub components: [Fixed; 5],
    /// When published (microseconds)
    pub timestamp: TimeUs,
    /// Publishing module
    pub source: ModuleId,
    /// Monotonic sequence number
    pub sequence: u8,
}

impl Field {
    /// The empty field: all components zero, never published.
    pub open spec fn spec_empty(self) -> bool {
        &&& forall|i: int| 0 <= i < 5 ==> (#[trigger] self.components[i]) == Fixed::spec_zero()
        &&& self.timestamp == 0
        &&& self.source == INVALID_MODULE_ID
        &&& self.sequence == 0
    }

    /// Create a new empty field.
    pub fn new() -> (f: Field)
        ensures
            f.spec_empty(),
    {
        Field {
            components: [Fixed::zero(), Fixed::zero(), Fixed::zero(), Fixed::zero(), Fixed::zero()],
            timestamp: 0,
            source: INVALID_MODULE_ID,
            sequence: 0,
        }
    }

    /// Get component value.
    pub fn get(&self, component: FieldComponent) -> (v: Fixed)
        ensures
            v == self.components[component.spec_index()],
    {
        self.components[component.index()]
    }

    /// Set component value.
    pub fn set(&mut self, component: FieldComponent, value: Fixed)
        ensures
            final(self).components@ == old(self).components@.update(component.spec_index(), value),
            final(self).timestamp == old(self).timestamp,
            final(self).source == old(self).source,
            final(self).sequence == old(self).sequence,
    {
        let i: usize = component.index();
        self.components[i] = value;
    }

    /// Create field with load, thermal, power values; the rest is as in the
    /// empty field.
    pub fn with_values(load: Fixed, thermal: Fixed, power: Fixed) -> (f: Field)
        ensures
            f.components[0] == load,
            f.components[1] == thermal,
            f.components[2] == power,
            f.components[3] == Fixed::spec_zero(),
            f.components[4] == Fixed::spec_zero(),
            f.timestamp == 0,
            f.source == INVALID_MODULE_ID,
            f.sequence == 0,
    {
        Field {
            components: [load, thermal, power, Fixed::zero(), Fixed::zero()],
            timestamp: 0,
            source: INVALID_MODULE_ID,
            sequence: 0,
        }
    }

    /// Whether the field has been published and is younger than `max_age_us`.
    pub open spec fn spec_is_valid(self, now: TimeUs, max_age_us: TimeUs) -> bool {
        self.source != INVALID_MODULE_ID && now - self.timestamp < max_age_us
    }

    /// Check if field is valid (published and not expired). A published field
    /// may not carry a timestamp later than `now`.
    pub fn is_valid(&self, now: TimeUs, max_age_us: TimeUs) -> (valid: bool)
        requires
            self.source != INVALID_MODULE_ID ==> self.timestamp <= now,
        ensures
            valid == self.spec_is_valid(now, max_age_us),
    {
        self.source != INVALID_MODULE_ID && (now - self.timestamp) < max_age_us
    }

    /// Clear field to the empty state.
    pub fn clear(&mut self)
        ensures
            final(self).spec_empty(),
    {
        *self = Field::new();
    }
}

/// Information about a neighbor module.
#[derive(Debug, Clone, Copy)]
pub struct Neighbor {
    /// Neighbor's module ID
    pub id: ModuleId,
    /// Current health state
    pub health: HealthState,
    /// Last heartbeat timestamp
    pub last_seen: TimeUs,
    /// Last received field
    pub last_field: Field,
    /// Distance metric for k-selection
    pub logical_distance: i32,
    /// Consecutive missed heartbeats
    pub missed_heartbeats: u8,
}

impl Neighbor {
    /// Create new neighbor entry: health unknown, nothing seen yet.
    pub fn new(id: ModuleId) -> (n: Neighbor)
        ensures
            n.id == id,
            n.health == HealthState::Unknown,
            n.last_seen == 0,
            n.last_field.spec_empty(),
            n.logical_distance == 0,
            n.missed_heartbeats == 0,
    {
        Neighbor {
            id,
            health: HealthState::Unknown,
            last_seen: 0,
            last_field: Field::new(),
            logical_distance: 0,
            missed_heartbeats: 0,
        }
    }

    /// Check if neighbor is healthy: alive or suspect.
    pub fn is_healthy(&self) -> (h: bool)
        ensures
            h == (self.health == HealthState::Alive || self.health == HealthState::Suspect),
    {
        match self.health {
            HealthState::Alive => true,
            HealthState::Suspect => true,
            _ => false,
        }
    }
}

/// Consensus threshold of a simple majority (one half), as a raw pattern.
pub const THRESHOLD_SIMPLE_MAJORITY_BITS: i32 = 0x8000;

/// Consensus threshold of a supermajority (about 0.67), as a raw pattern.
pub const THRESHOLD_SUPERMAJORITY_BITS: i32 = 0xAB85;

/// Consensus threshold of unanimity (one), as a raw pattern.
pub const THRESHOLD_UNANIMOUS_BITS: i32 = 0x1_0000;

/// 3D position for physical distance calculation.
#[derive(Debug, Clone, Copy, PartialEq, Eq, Structural)]
pub struct Position {
    pub x: i16,
    pub y: i16,
    pub z: i16,
}

impl Position {
    /// Squared Euclidean distance between two positions, as a mathematical integer.
    pub open spec fn spec_distance_squared(self, other: Position) -> int {
        (self.x - other.x) * (self.x - other.x) + (self.y - other.y) * (self.y - other.y) + (self.z
            - other.z) * (self.z - other.z)
    }

    /// Create new position.
    pub fn new(x: i16, y: i16, z: i16) -> (p: Position)
        ensures
            p.x == x,
            p.y == y,
            p.z == z,
    {
        Position { x, y, z }
    }

    /// Compute squared Euclidean distance to another position.
    ///
    /// The result must be representable: the two positions may not be so far
    /// apart that the squared distance exceeds `i32::MAX`.
    pub fn distance_squared(&self, other: &Position) -> (d: i32)
        requires
            self.spec_distance_squared(*other) <= i32::MAX,
        ensures
            d == self.spec_distance_squared(*other),
    {
        let dx: i64 = self.x as i64 - other.x as i64;
        let dy: i64 = self.y as i64 - other.y as i64;
        let dz: i64 = self.z as i64 - other.z as i64;
        assert(0 <= dx * dx <= 65535 * 65535) by (nonlinear_arith)
            requires
                -65535 <= dx <= 65535,
        ;
        assert(0 <= dy * dy <= 65535 * 65535) by (nonlinear_arith)
            requires
                -65535 <= dy <= 65535,
        ;
        assert(0 <= dz * dz <= 65535 * 65535) by (nonlinear_arith)
            requires
                -65535 <= dz <= 65535,
        ;
        let sum: i64 = dx * dx + dy * dy + dz * dz;
        sum as i32
    }
}

} // verus!
