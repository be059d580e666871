//! Coordination field primitives: a shared region with one slot per module,
//! and the engine that publishes, decays, samples, aggregates and reclaims
//! the fields in it.

use vstd::prelude::*;
use crate::fixed_point::Fixed;
use crate::types::{
    Error, Field, FieldComponent, HealthState, ModuleId, Neighbor, TimeUs, FIELD_DECAY_TAU_US,
    INVALID_MODULE_ID, K_NEIGHBORS, MAX_MODULES,
};

verus! {

/// Field decay model.
#[derive(Debug, Clone, Copy, PartialEq, Eq, Structural)]
pub enum DecayModel {
    /// f(t) = f0 * exp(-t/tau)
    Exponential,
    /// f(t) = f0 * (1 - t/tau), clamped to 0
    Linear,
    /// f(t) = f0 if t < tau, else 0
    Step,
}

impl Default for DecayModel {
    fn default() -> (m: DecayModel)
        ensures
            m == DecayModel::Exponential,
    {
        DecayModel::Exponential
    }
}

/// Field configuration per component.
#[derive(Debug, Clone, Copy)]
pub struct FieldConfig {
    /// Decay time constant (seconds)
    pub decay_tau: Fixed,
    /// Decay function
    pub decay_model: DecayModel,
    /// Floor (clamp)
    pub min_value: Fixed,
    /// Ceiling (clamp)
    pub max_value: Fixed,
    /// Value when no data
    pub default_value: Fixed,
}

impl Default for FieldConfig {
    fn default() -> (c: FieldConfig)
        ensures
            c.decay_tau.bits == 6554,
            c.decay_model == DecayModel::Exponential,
            c.min_value == Fixed::spec_zero(),
            c.max_value == Fixed::spec_one(),
            c.default_value == Fixed::spec_zero(),
    {
        FieldConfig {
            decay_tau: Fixed::from_bits(6554),
            decay_model: DecayModel::Exponential,
            min_value: Fixed::zero(),
            max_value: Fixed::one(),
            default_value: Fixed::zero(),
        }
    }
}

/// Shared field region (one per cluster): the medium through which
/// modules coordinate. Slot `i` belongs to the module with id `i`.
pub struct FieldRegion {
    /// Published fields from all modules
    pub fields: [Field; 256],
    /// Bitmask of updated modules
    pub update_flags: u32,
    /// Last garbage collection timestamp
    pub last_gc: TimeUs,
}

impl FieldRegion {
    /// Create a new field region: every slot empty, no update flagged.
    pub fn new() -> (r: FieldRegion)
        ensures
            forall|i: int| 0 <= i < 256 ==> (#[trigger] r.fields[i]).spec_empty(),
            r.update_flags == 0,
            r.last_gc == 0,
    {
        let empty = Field::new();
        let fields: [Field; 256] = [empty;256];
        assert forall|i: int| 0 <= i < 256 implies (#[trigger] fields[i]).spec_empty() by {
            vstd::array::axiom_spec_array_fill_for_copy_type::<Field, 256>(empty);
            assert(fields@[i] == empty);
        }
        FieldRegion { fields, update_flags: 0, last_gc: 0 }
    }

    /// Get field for a module.
    pub fn get(&self, module_id: ModuleId) -> (f: Option<&Field>)
        ensures
            f == Some(&self.fields[module_id as int]),
    {
        let i: usize = module_id as usize;
        if i >= MAX_MODULES {
            return None;
        }
        Some(&self.fields[i])
    }

    /// Get mutable field for a module.
    pub fn get_mut(&mut self, module_id: ModuleId) -> (f: Option<&mut Field>)
        ensures
            f.is_some(),
            *f.unwrap() == old(self).fields[module_id as int],
            final(self).fields@ == old(self).fields@.update(module_id as int, *final(f.unwrap())),
            final(self).update_flags == old(self).update_flags,
            final(self).last_gc == old(self).last_gc,
    {
        let i: usize = module_id as usize;
        if i >= MAX_MODULES {
            return None;
        }
        Some(&mut self.fields[i])
    }
}

/// Staleness horizon: a field older than five decay time constants is
/// refused rather than decayed further.
pub const FIELD_MAX_AGE_US: u64 = 500_000;

/// Elapsed time between a timestamp and `now`, never negative.
pub open spec fn elapsed_since(now: TimeUs, timestamp: TimeUs) -> int {
    if now >= timestamp {
        now - timestamp
    } else {
        0
    }
}

/// Quotient of two natural numbers rounded to the nearest integer, a tie
/// going to the even neighbor.
pub open spec fn round_div(n: int, d: int) -> int {
    let q = n / d;
    let r = n % d;
    if 2 * r > d || (2 * r == d && q % 2 == 1) {
        q + 1
    } else {
        q
    }
}

/// Raw pattern of the decay factor after `t` microseconds: a piecewise-linear
/// curve over the time constant `tau` with the values 1 at `0`, 1/2 at `tau`,
/// 1/4 at `2 tau` and 0 from `3 tau` on, each value rounded to the nearest
/// representable number.
pub open spec fn decay_factor_bits(t: int) -> int {
    let tau = FIELD_DECAY_TAU_US as int;
    if t < tau {
        round_div((tau - t) * 0x1_0000, tau)
    } else if t < 2 * tau {
        round_div((2 * tau - t) * 0x1_0000, 2 * tau)
    } else if t < 3 * tau {
        round_div((3 * tau - t) * 0x1_0000, 4 * tau)
    } else {
        0
    }
}

/// The decay factor after `t` microseconds, as a number.
pub open spec fn decay_factor(t: int) -> Fixed {
    Fixed { bits: decay_factor_bits(t) as i32 }
}

/// Index of the linear piece of the decay curve that `t` falls in.
pub open spec fn decay_segment(t: int) -> int {
    let tau = FIELD_DECAY_TAU_US as int;
    if t < tau {
        0
    } else if t < 2 * tau {
        1
    } else if t < 3 * tau {
        2
    } else {
        3
    }
}

/// `after` is `before` with every component multiplied by the decay factor
/// for `elapsed` microseconds, and the same provenance.
pub open spec fn is_decayed(after: Field, before: Field, elapsed: int) -> bool {
    &&& forall|i: int|
        0 <= i < 5 ==> (#[trigger] after.components[i]) == before.components[i].spec_wrapping_mul(
            decay_factor(elapsed),
        )
    &&& after.timestamp == before.timestamp
    &&& after.source == before.source
    &&& after.sequence == before.sequence
}

/// What sampling a slot yields: an error for a slot never published or
/// gone stale, else the decayed copy described by `is_decayed`.
pub open spec fn sample_error(slot: Field, now: TimeUs) -> Option<Error> {
    if slot.source == INVALID_MODULE_ID {
        Some(Error::NotFound)
    } else if elapsed_since(now, slot.timestamp) > FIELD_MAX_AGE_US {
        Some(Error::FieldExpired)
    } else {
        None
    }
}

/// Divide with rounding to the nearest integer, a tie going to the even
/// neighbor.
fn rounded_quotient(n: u64, d: u64) -> (q: u64)
    requires
        0 < d <= 400_000,
        n <= 100_000 * 0x1_0000,
    ensures
        q == round_div(n as int, d as int),
{
    let q: u64 = n / d;
    let r: u64 = n % d;
    if 2 * r > d || (2 * r == d && q % 2 == 1) {
        q + 1
    } else {
        q
    }
}

/// Compute the decay factor after `elapsed_us` microseconds.
pub fn decay_factor_at(elapsed_us: TimeUs) -> (f: Fixed)
    ensures
        f == decay_factor(elapsed_us as int),
        0 <= f.bits <= 0x1_0000,
{
    let tau: u64 = FIELD_DECAY_TAU_US;
    let q: u64 = if elapsed_us < tau {
        rounded_quotient((tau - elapsed_us) * 0x1_0000, tau)
    } else if elapsed_us < 2 * tau {
        rounded_quotient((2 * tau - elapsed_us) * 0x1_0000, 2 * tau)
    } else if elapsed_us < 3 * tau {
        rounded_quotient((3 * tau - elapsed_us) * 0x1_0000, 4 * tau)
    } else {
        0
    };
    proof {
        lemma_decay_in_range(elapsed_us as int);
    }
    Fixed::from_bits(q as i32)
}

/// The decay factor lies between zero and one.
pub proof fn lemma_decay_in_range(t: int)
    requires
        0 <= t,
    ensures
        0 <= decay_factor_bits(t) <= 0x1_0000,
{
    let tau = FIELD_DECAY_TAU_US as int;
    if t < tau {
        lemma_round_div_monotone(0, (tau - t) * 0x1_0000, tau);
        lemma_round_div_monotone((tau - t) * 0x1_0000, tau * 0x1_0000, tau);
    } else if t < 2 * tau {
        lemma_round_div_monotone(0, (2 * tau - t) * 0x1_0000, 2 * tau);
        lemma_round_div_monotone((2 * tau - t) * 0x1_0000, tau * 0x1_0000, 2 * tau);
    } else if t < 3 * tau {
        lemma_round_div_monotone(0, (3 * tau - t) * 0x1_0000, 4 * tau);
        lemma_round_div_monotone((3 * tau - t) * 0x1_0000, tau * 0x1_0000, 4 * tau);
    }
}

/// Rounded division by a fixed divisor never falls as the dividend grows.
pub proof fn lemma_round_div_monotone(n1: int, n2: int, d: int)
    requires
        0 <= n1 <= n2,
        d == 100_000 || d == 200_000 || d == 400_000,
    ensures
        round_div(n1, d) <= round_div(n2, d),
{
    if d == 100_000 {
        assert(round_div(n1, 100_000) <= round_div(n2, 100_000));
    } else if d == 200_000 {
        assert(round_div(n1, 200_000) <= round_div(n2, 200_000));
    } else {
        assert(round_div(n1, 400_000) <= round_div(n2, 400_000));
    }
}

/// Whether garbage collection at `now` reclaims the slot: it holds
/// published data older than `max_age_us`.
pub open spec fn is_expired(slot: Field, now: TimeUs, max_age_us: TimeUs) -> bool {
    slot.source != INVALID_MODULE_ID && elapsed_since(now, slot.timestamp) > max_age_us
}

/// Number of slots among the first `k` that garbage collection reclaims.
pub open spec fn count_expired(fields: Seq<Field>, now: TimeUs, max_age_us: TimeUs, k: int) -> int
    decreases k,
{
    if k <= 0 {
        0
    } else {
        count_expired(fields, now, max_age_us, k - 1) + if is_expired(
            fields[k - 1],
            now,
            max_age_us,
        ) {
            1int
        } else {
            0int
        }
    }
}

/// The sequence counter after one more publication: it wraps from 255 to 0.
pub open spec fn next_sequence(sequence: u8) -> u8 {
    if sequence == 255 {
        0
    } else {
        (sequence + 1) as u8
    }
}

/// Weight given to a neighbor's field by its health: one for alive, one
/// half for suspect, none for any other.
pub open spec fn health_weight(health: HealthState) -> Fixed {
    match health {
        HealthState::Alive => Fixed { bits: 0x1_0000 },
        HealthState::Suspect => Fixed { bits: 0x8000 },
        _ => Fixed { bits: 0 },
    }
}

/// Whether a neighbor takes part in the aggregate: it is alive or suspect,
/// and its slot holds published data within the staleness horizon.
pub open spec fn contributes(region: FieldRegion, neighbor: Neighbor, now: TimeUs) -> bool {
    health_weight(neighbor.health).bits > 0 && sample_error(
        region.fields[neighbor.id as int],
        now,
    ).is_none()
}

/// Component `c` of a neighbor's slot after decay up to `now`.
pub open spec fn decayed_component(
    region: FieldRegion,
    neighbor: Neighbor,
    now: TimeUs,
    c: int,
) -> Fixed {
    let slot = region.fields[neighbor.id as int];
    slot.components[c].spec_wrapping_mul(decay_factor(elapsed_since(now, slot.timestamp)))
}

/// Weighted sum of component `c` over the contributing neighbors among the
/// first `k`.
pub open spec fn weighted_sum(
    region: FieldRegion,
    neighbors: Seq<Neighbor>,
    now: TimeUs,
    c: int,
    k: int,
) -> Fixed
    decreases k,
{
    if k <= 0 {
        Fixed { bits: 0 }
    } else {
        let prev = weighted_sum(region, neighbors, now, c, k - 1);
        let n = neighbors[k - 1];
        if contributes(region, n, now) {
            prev.spec_wrapping_add(
                decayed_component(region, n, now, c).spec_wrapping_mul(health_weight(n.health)),
            )
        } else {
            prev
        }
    }
}

/// Sum of the weights of the contributing neighbors among the first `k`.
pub open spec fn total_weight(
    region: FieldRegion,
    neighbors: Seq<Neighbor>,
    now: TimeUs,
    k: int,
) -> Fixed
    decreases k,
{
    if k <= 0 {
        Fixed { bits: 0 }
    } else {
        let prev = total_weight(region, neighbors, now, k - 1);
        let n = neighbors[k - 1];
        if contributes(region, n, now) {
            prev.spec_wrapping_add(health_weight(n.health))
        } else {
            prev
        }
    }
}

/// Component `c` of the neighborhood aggregate: the weighted sum divided by
/// the total weight where that is positive, else the sum itself.
pub open spec fn aggregate_component(
    region: FieldRegion,
    neighbors: Seq<Neighbor>,
    now: TimeUs,
    c: int,
) -> Fixed {
    let sum = weighted_sum(region, neighbors, now, c, neighbors.len() as int);
    let weight = total_weight(region, neighbors, now, neighbors.len() as int);
    if weight.bits > 0 {
        sum.spec_wrapping_div(weight)
    } else {
        sum
    }
}

/// With no contributing neighbor among the first `k`, the weighted sums and
/// the total weight are zero.
pub proof fn lemma_no_contribution_is_zero(
    region: FieldRegion,
    neighbors: Seq<Neighbor>,
    now: TimeUs,
    k: int,
)
    requires
        0 <= k <= neighbors.len(),
        forall|j: int| 0 <= j < k ==> !contributes(region, #[trigger] neighbors[j], now),
    ensures
        total_weight(region, neighbors, now, k) == Fixed::spec_zero(),
        forall|c: int| (#[trigger] weighted_sum(region, neighbors, now, c, k)) == Fixed::spec_zero(),
    decreases k,
{
    if k > 0 {
        lemma_no_contribution_is_zero(region, neighbors, now, k - 1);
        assert(!contributes(region, neighbors[k - 1], now));
    }
    assert forall|c: int| (#[trigger] weighted_sum(region, neighbors, now, c, k))
        == Fixed::spec_zero() by {
        if k > 0 {
            assert(weighted_sum(region, neighbors, now, c, k - 1) == Fixed::spec_zero());
        }
    }
}

/// A neighbor that is dead or of unknown health, or whose field is missing
/// or stale, counts neither in the weighted sums nor in the total weight.
pub proof fn lemma_excluded_neighbor_is_ignored(
    region: FieldRegion,
    neighbors: Seq<Neighbor>,
    now: TimeUs,
    k: int,
)
    requires
        0 < k <= neighbors.len(),
        neighbors[k - 1].health == HealthState::Dead || neighbors[k - 1].health
            == HealthState::Unknown || sample_error(
            region.fields[neighbors[k - 1].id as int],
            now,
        ).is_some(),
    ensures
        total_weight(region, neighbors, now, k) == total_weight(region, neighbors, now, k - 1),
        forall|c: int|
            (#[trigger] weighted_sum(region, neighbors, now, c, k)) == weighted_sum(
                region,
                neighbors,
                now,
                c,
                k - 1,
            ),
{
    assert(!contributes(region, neighbors[k - 1], now));
}

/// Add to every component of `acc` the matching component of `field`
/// multiplied by `weight`.
fn accumulate_weighted(acc: &mut Field, field: &Field, weight: Fixed)
    ensures
        forall|c: int|
            0 <= c < 5 ==> (#[trigger] final(acc).components[c]) == old(
                acc,
            ).components[c].spec_wrapping_add(field.components[c].spec_wrapping_mul(weight)),
        final(acc).timestamp == old(acc).timestamp,
        final(acc).source == old(acc).source,
        final(acc).sequence == old(acc).sequence,
{
    let ghost before = *acc;
    let mut i: usize = 0;
    while i < 5
        invariant
            i <= 5,
            acc.timestamp == before.timestamp,
            acc.source == before.source,
            acc.sequence == before.sequence,
            forall|c: int|
                0 <= c < i ==> (#[trigger] acc.components[c])
                    == before.components[c].spec_wrapping_add(
                    field.components[c].spec_wrapping_mul(weight),
                ),
            forall|c: int| i <= c < 5 ==> (#[trigger] acc.components[c]) == before.components[c],
        decreases 5 - i,
    {
        let v = acc.components[i].wrapping_add(field.components[i].wrapping_mul(weight));
        acc.components[i] = v;
        i += 1;
    }
}

/// Divide every component of `acc` by `weight`, which is not zero.
fn normalize(acc: &mut Field, weight: Fixed)
    requires
        weight.bits != 0,
    ensures
        forall|c: int|
            0 <= c < 5 ==> (#[trigger] final(acc).components[c]) == old(
                acc,
            ).components[c].spec_wrapping_div(weight),
        final(acc).timestamp == old(acc).timestamp,
        final(acc).source == old(acc).source,
        final(acc).sequence == old(acc).sequence,
{
    let ghost before = *acc;
    let mut i: usize = 0;
    while i < 5
        invariant
            i <= 5,
            weight.bits != 0,
            acc.timestamp == before.timestamp,
            acc.source == before.source,
            acc.sequence == before.sequence,
            forall|c: int|
                0 <= c < i ==> (#[trigger] acc.components[c])
                    == before.components[c].spec_wrapping_div(weight),
            forall|c: int| i <= c < 5 ==> (#[trigger] acc.components[c]) == before.components[c],
        decreases 5 - i,
    {
        let v = acc.components[i].wrapping_div(weight);
        acc.components[i] = v;
        i += 1;
    }
}

/// `after` is `before` with the field published into the slot of `module_id`
/// at `now`: the slot takes the field's components, the time and the id, its
/// sequence counter advances, the module's bit is set in the update mask, and
/// nothing else changes.
pub open spec fn published(
    before: FieldRegion,
    after: FieldRegion,
    module_id: ModuleId,
    field: Field,
    now: TimeUs,
) -> bool {
    &&& after.fields[module_id as int].components == field.components
    &&& after.fields[module_id as int].timestamp == now
    &&& after.fields[module_id as int].source == module_id
    &&& after.fields[module_id as int].sequence == next_sequence(
        before.fields[module_id as int].sequence,
    )
    &&& forall|i: int|
        0 <= i < 256 && i != module_id ==> (#[trigger] after.fields[i]) == before.fields[i]
    &&& after.update_flags == before.update_flags | (1u32 << (module_id % 32))
    &&& after.last_gc == before.last_gc
}

/// Field engine for coordination.
pub struct FieldEngine {
    /// Configuration per component
    pub config: [FieldConfig; 5],
}

impl FieldEngine {
    /// Create a new field engine with the default configuration for every
    /// component.
    pub fn new() -> (e: FieldEngine)
        ensures
            forall|i: int|
                0 <= i < 5 ==> {
                    &&& (#[trigger] e.config[i]).decay_tau.bits == 6554
                    &&& e.config[i].decay_model == DecayModel::Exponential
                    &&& e.config[i].min_value == Fixed::spec_zero()
                    &&& e.config[i].max_value == Fixed::spec_one()
                    &&& e.config[i].default_value == Fixed::spec_zero()
                },
    {
        FieldEngine { config: [FieldConfig::default();5] }
    }

    /// Publish a module's coordination field into its own slot of the region.
    ///
    /// Fails with `InvalidArg`, changing nothing, for the reserved invalid id.
    /// Otherwise the slot takes the field's components, is stamped with `now`
    /// and the module's id, its sequence counter advances by one (wrapping),
    /// and the module's bit is set in the region's update mask.
    pub fn publish(
        &self,
        region: &mut FieldRegion,
        module_id: ModuleId,
        field: &Field,
        now: TimeUs,
    ) -> (r: Result<(), Error>)
        ensures
            module_id == INVALID_MODULE_ID ==> r == Err::<(), Error>(Error::InvalidArg) && *final(region) == *old(region),
            module_id != INVALID_MODULE_ID ==> r == Ok::<(), Error>(()) && published(
                *old(region),
                *final(region),
                module_id,
                *field,
                now,
            ),
    {
        let slot: usize = module_id as usize;
        if slot >= MAX_MODULES || module_id == INVALID_MODULE_ID {
            return Err(Error::InvalidArg);
        }
        let sequence: u8 = region.fields[slot].sequence.wrapping_add(1);
        region.fields[slot] = Field {
            components: field.components,
            timestamp: now,
            source: module_id,
            sequence,
        };
        let shift: u8 = module_id % 32;
        let bit: u32 = 1u32 << shift;
        region.update_flags = region.update_flags | bit;
        Ok(())
    }

    /// Garbage collect expired fields.
    ///
    /// Every slot holding published data older than `max_age_us` is reset to
    /// the empty field; every other slot is left as it was. Records the time
    /// of the sweep and returns the number of slots cleared.
    pub fn gc(&self, region: &mut FieldRegion, now: TimeUs, max_age_us: TimeUs) -> (cleared: u32)
        ensures
            forall|i: int|
                0 <= i < 256 && is_expired(old(region).fields[i], now, max_age_us) ==> (
                #[trigger] final(region).fields[i]).spec_empty(),
            forall|i: int|
                0 <= i < 256 && !is_expired(old(region).fields[i], now, max_age_us) ==> (
                #[trigger] final(region).fields[i]) == old(region).fields[i],
            final(region).last_gc == now,
            final(region).update_flags == old(region).update_flags,
            cleared == count_expired(old(region).fields@, now, max_age_us, 256),
    {
        let ghost before = *region;
        let mut expired: u32 = 0;
        let mut i: usize = 0;
        while i < 256
            invariant
                i <= 256,
                expired == count_expired(before.fields@, now, max_age_us, i as int),
                expired <= i,
                region.update_flags == before.update_flags,
                region.last_gc == before.last_gc,
                forall|j: int|
                    0 <= j < i && is_expired(before.fields[j], now, max_age_us) ==> (
                    #[trigger] region.fields[j]).spec_empty(),
                forall|j: int|
                    0 <= j < i && !is_expired(before.fields[j], now, max_age_us) ==> (
                    #[trigger] region.fields[j]) == before.fields[j],
                forall|j: int| i <= j < 256 ==> (#[trigger] region.fields[j]) == before.fields[j],
            decreases 256 - i,
        {
            let slot: Field = region.fields[i];
            if slot.source != INVALID_MODULE_ID {
                if now.saturating_sub(slot.timestamp) > max_age_us {
                    region.fields[i] = Field::new();
                    expired += 1;
                }
            }
            i += 1;
        }
        region.last_gc = now;
        expired
    }

    /// Sample all neighbors and compute their aggregate.
    ///
    /// Returns the weighted average of the decayed fields of the neighbors
    /// that contribute: weight one for an alive neighbor, one half for a
    /// suspect one; dead or unknown neighbors and those whose field is
    /// missing or stale count neither in the sum nor in the total weight.
    /// With no contributing neighbor the result is the empty field.
    pub fn sample_neighbors(&self, region: &FieldRegion, neighbors: &[Neighbor], now: TimeUs) -> (a:
        Field)
        ensures
            forall|c: int|
                0 <= c < 5 ==> (#[trigger] a.components[c]) == aggregate_component(
                    *region,
                    neighbors@,
                    now,
                    c,
                ),
            a.timestamp == 0,
            a.source == INVALID_MODULE_ID,
            a.sequence == 0,
            (forall|j: int| 0 <= j < neighbors@.len() ==> !contributes(*region, #[trigger] neighbors@[j], now))
                ==> a.spec_empty(),
    {
        let mut aggregate = Field::new();
        let mut total = Fixed::zero();
        let mut k: usize = 0;
        while k < neighbors.len()
            invariant
                k <= neighbors.len(),
                aggregate.timestamp == 0,
                aggregate.source == INVALID_MODULE_ID,
                aggregate.sequence == 0,
                total == total_weight(*region, neighbors@, now, k as int),
                forall|c: int|
                    0 <= c < 5 ==> (#[trigger] aggregate.components[c]) == weighted_sum(
                        *region,
                        neighbors@,
                        now,
                        c,
                        k as int,
                    ),
            decreases neighbors.len() - k,
        {
            let neighbor: Neighbor = neighbors[k];
            let weight = match neighbor.health {
                HealthState::Alive => Fixed::one(),
                HealthState::Suspect => Fixed::from_bits(0x8000),
                _ => Fixed::zero(),
            };
            if weight.to_bits() > 0 {
                match self.sample(region, neighbor.id, now) {
                    Ok(field) => {
                        accumulate_weighted(&mut aggregate, &field, weight);
                        total = total.wrapping_add(weight);
                    },
                    Err(_) => {},
                }
            }
            k += 1;
        }
        if total.to_bits() > 0 {
            normalize(&mut aggregate, total);
        }
        proof {
            if forall|j: int| 0 <= j < neighbors@.len() ==> !contributes(*region, #[trigger] neighbors@[j], now) {
                lemma_no_contribution_is_zero(*region, neighbors@, now, neighbors@.len() as int);
            }
        }
        aggregate
    }

    /// Compute gradient for a specific field component: the neighborhood
    /// aggregate minus the module's own value.
    ///
    /// Positive: neighbors have higher values. Negative: neighbors have
    /// lower values.
    pub fn gradient(
        &self,
        my_field: &Field,
        neighbor_aggregate: &Field,
        component: FieldComponent,
    ) -> (g: Fixed)
        ensures
            g == neighbor_aggregate.components[component.spec_index()].spec_wrapping_sub(
                my_field.components[component.spec_index()],
            ),
    {
        let my_val = my_field.get(component);
        let neighbor_val = neighbor_aggregate.get(component);
        neighbor_val.wrapping_sub(my_val)
    }

    /// Compute gradient vector for all components, in the order of their
    /// positions.
    pub fn gradient_all(&self, my_field: &Field, neighbor_aggregate: &Field) -> (g: [Fixed; 5])
        ensures
            forall|c: int|
                0 <= c < 5 ==> (#[trigger] g[c]) == neighbor_aggregate.components[c].spec_wrapping_sub(
                    my_field.components[c],
                ),
    {
        let all = FieldComponent::all();
        let mut gradients: [Fixed; 5] = [Fixed::zero();5];
        let mut i: usize = 0;
        while i < 5
            invariant
                i <= 5,
                forall|c: int| 0 <= c < 5 ==> (#[trigger] all[c]).spec_index() == c,
                forall|c: int|
                    0 <= c < i ==> (#[trigger] gradients[c])
                        == neighbor_aggregate.components[c].spec_wrapping_sub(my_field.components[c]),
            decreases 5 - i,
        {
            let g = self.gradient(my_field, neighbor_aggregate, all[i]);
            gradients[i] = g;
            i += 1;
        }
        gradients
    }

    /// Apply decay to a field based on elapsed time.
    pub fn apply_decay(&self, field: &mut Field, elapsed_us: TimeUs)
        ensures
            is_decayed(*final(field), *old(field), elapsed_us as int),
    {
        let factor = decay_factor_at(elapsed_us);
        let ghost before = *field;
        let mut i: usize = 0;
        while i < 5
            invariant
                i <= 5,
                factor == decay_factor(elapsed_us as int),
                field.timestamp == before.timestamp,
                field.source == before.source,
                field.sequence == before.sequence,
                forall|j: int|
                    0 <= j < i ==> (#[trigger] field.components[j])
                        == before.components[j].spec_wrapping_mul(factor),
                forall|j: int| i <= j < 5 ==> (#[trigger] field.components[j]) == before.components[j],
            decreases 5 - i,
        {
            let v = field.components[i].wrapping_mul(factor);
            field.components[i] = v;
            i += 1;
        }
    }

    /// Sample a specific module's field with decay applied.
    ///
    /// Fails with `NotFound` when the slot was never published, and with
    /// `FieldExpired` when the data is older than the staleness horizon.
    pub fn sample(&self, region: &FieldRegion, target_id: ModuleId, now: TimeUs) -> (r: Result<
        Field,
        Error,
    >)
        ensures
            match r {
                Ok(f) => sample_error(region.fields[target_id as int], now).is_none() && is_decayed(
                    f,
                    region.fields[target_id as int],
                    elapsed_since(now, region.fields[target_id as int].timestamp),
                ),
                Err(e) => sample_error(region.fields[target_id as int], now) == Some(e),
            },
    {
        let field: Field = match region.get(target_id) {
            Some(f) => *f,
            None => { return Err(Error::InvalidArg); },
        };
        if field.source == INVALID_MODULE_ID {
            return Err(Error::NotFound);
        }
        let elapsed: u64 = now.saturating_sub(field.timestamp);
        if elapsed > FIELD_MAX_AGE_US {
            return Err(Error::FieldExpired);
        }
        let mut result = field;
        self.apply_decay(&mut result, elapsed);
        Ok(result)
    }
}

impl Default for FieldRegion {
    fn default() -> (r: FieldRegion)
        ensures
            forall|i: int| 0 <= i < 256 ==> (#[trigger] r.fields[i]).spec_empty(),
            r.update_flags == 0,
            r.last_gc == 0,
    {
        FieldRegion::new()
    }
}

impl Default for FieldEngine {
    fn default() -> (e: FieldEngine)
        ensures
            forall|i: int|
                0 <= i < 5 ==> {
                    &&& (#[trigger] e.config[i]).decay_tau.bits == 6554
                    &&& e.config[i].decay_model == DecayModel::Exponential
                    &&& e.config[i].min_value == Fixed::spec_zero()
                    &&& e.config[i].max_value == Fixed::spec_one()
                    &&& e.config[i].default_value == Fixed::spec_zero()
                },
    {
        FieldEngine::new()
    }
}

impl Field {
    /// Add two fields component-wise; the provenance is that of `self`.
    pub fn add(&self, other: &Field) -> (r: Field)
        ensures
            forall|c: int|
                0 <= c < 5 ==> (#[trigger] r.components[c]) == self.components[c].spec_wrapping_add(
                    other.components[c],
                ),
            r.timestamp == self.timestamp,
            r.source == self.source,
            r.sequence == self.sequence,
    {
        let mut result = *self;
        let mut i: usize = 0;
        while i < 5
            invariant
                i <= 5,
                result.timestamp == self.timestamp,
                result.source == self.source,
                result.sequence == self.sequence,
                forall|c: int|
                    0 <= c < i ==> (#[trigger] result.components[c])
                        == self.components[c].spec_wrapping_add(other.components[c]),
                forall|c: int| i <= c < 5 ==> (#[trigger] result.components[c]) == self.components[c],
            decreases 5 - i,
        {
            let v = result.components[i].wrapping_add(other.components[i]);
            result.components[i] = v;
            i += 1;
        }
        result
    }

    /// Scale field by factor; the provenance is that of `self`.
    pub fn scale(&self, factor: Fixed) -> (r: Field)
        ensures
            forall|c: int|
                0 <= c < 5 ==> (#[trigger] r.components[c]) == self.components[c].spec_wrapping_mul(
                    factor,
                ),
            r.timestamp == self.timestamp,
            r.source == self.source,
            r.sequence == self.sequence,
    {
        let mut result = *self;
        let mut i: usize = 0;
        while i < 5
            invariant
                i <= 5,
                result.timestamp == self.timestamp,
                result.source == self.source,
                result.sequence == self.sequence,
                forall|c: int|
                    0 <= c < i ==> (#[trigger] result.components[c])
                        == self.components[c].spec_wrapping_mul(factor),
                forall|c: int| i <= c < 5 ==> (#[trigger] result.components[c]) == self.components[c],
            decreases 5 - i,
        {
            let v = result.components[i].wrapping_mul(factor);
            result.components[i] = v;
            i += 1;
        }
        result
    }

    /// Linear interpolation between two fields:
    /// `self * (1 - t) + other * t`, component-wise, without provenance.
    pub fn lerp(&self, other: &Field, t: Fixed) -> (r: Field)
        ensures
            forall|c: int|
                0 <= c < 5 ==> (#[trigger] r.components[c]) == self.components[c].spec_wrapping_mul(
                    Fixed::spec_one().spec_wrapping_sub(t),
                ).spec_wrapping_add(other.components[c].spec_wrapping_mul(t)),
            r.timestamp == 0,
            r.source == INVALID_MODULE_ID,
            r.sequence == 0,
    {
        let mut result = Field::new();
        let one_minus_t = Fixed::one().wrapping_sub(t);
        let mut i: usize = 0;
        while i < 5
            invariant
                i <= 5,
                one_minus_t == Fixed::spec_one().spec_wrapping_sub(t),
                result.timestamp == 0,
                result.source == INVALID_MODULE_ID,
                result.sequence == 0,
                forall|c: int|
                    0 <= c < i ==> (#[trigger] result.components[c])
                        == self.components[c].spec_wrapping_mul(one_minus_t).spec_wrapping_add(
                        other.components[c].spec_wrapping_mul(t),
                    ),
            decreases 5 - i,
        {
            let v = self.components[i].wrapping_mul(one_minus_t).wrapping_add(
                other.components[i].wrapping_mul(t),
            );
            result.components[i] = v;
            i += 1;
        }
        result
    }
}

/// Within one linear piece of the decay curve, and from the third time
/// constant on, the decay factor never grows with elapsed time.
pub proof fn lemma_decay_monotone_within_segment(t1: int, t2: int)
    requires
        0 <= t1 <= t2,
        decay_segment(t1) == decay_segment(t2) || t2 >= 3 * FIELD_DECAY_TAU_US,
    ensures
        decay_factor_bits(t2) <= decay_factor_bits(t1),
        0 <= decay_factor_bits(t2),
{
    let tau = FIELD_DECAY_TAU_US as int;
    lemma_decay_in_range(t1);
    lemma_decay_in_range(t2);
    if t2 < tau {
        lemma_round_div_monotone((tau - t2) * 0x1_0000, (tau - t1) * 0x1_0000, tau);
    } else if t2 < 2 * tau {
        lemma_round_div_monotone((2 * tau - t2) * 0x1_0000, (2 * tau - t1) * 0x1_0000, 2 * tau);
    } else if t2 < 3 * tau {
        lemma_round_div_monotone((3 * tau - t2) * 0x1_0000, (3 * tau - t1) * 0x1_0000, 4 * tau);
    }
}

/// The decay curve passes through its checkpoints exactly: one at no elapsed
/// time, one half after one time constant, one quarter after two, and zero
/// from three time constants on.
pub proof fn lemma_decay_checkpoints(t: int)
    requires
        t >= 3 * FIELD_DECAY_TAU_US,
    ensures
        decay_factor(0) == Fixed::spec_one(),
        decay_factor(FIELD_DECAY_TAU_US as int).bits == 0x8000,
        decay_factor(2 * FIELD_DECAY_TAU_US).bits == 0x4000,
        decay_factor(t) == Fixed::spec_zero(),
{
    assert(decay_factor_bits(200_000) == round_div((300_000 - 200_000) * 0x1_0000, 400_000));
    assert(((300_000int - 200_000) * 0x1_0000) / 400_000 == 0x4000);
    assert(((300_000int - 200_000) * 0x1_0000) % 400_000 == 0);
}

/// A slot sampled beyond five time constants after its publication is
/// refused as expired.
pub proof fn lemma_sample_expires(slot: Field, now: TimeUs)
    requires
        slot.source != INVALID_MODULE_ID,
        now - slot.timestamp > 5 * FIELD_DECAY_TAU_US,
    ensures
        sample_error(slot, now) == Some(Error::FieldExpired),
{
}

/// Publishing a field and sampling it at the same instant gives back the
/// published components unchanged.
pub proof fn lemma_publish_then_sample(
    before: FieldRegion,
    after: FieldRegion,
    module_id: ModuleId,
    field: Field,
    now: TimeUs,
    sampled: Field,
)
    requires
        module_id != INVALID_MODULE_ID,
        published(before, after, module_id, field, now),
        is_decayed(sampled, after.fields[module_id as int], elapsed_since(now, now)),
    ensures
        sample_error(after.fields[module_id as int], now).is_none(),
        forall|c: int| 0 <= c < 5 ==> (#[trigger] sampled.components[c]) == field.components[c],
        sampled.timestamp == now,
        sampled.source == module_id,
{
    assert(decay_factor(0) == Fixed::spec_one());
    assert forall|c: int| 0 <= c < 5 implies (#[trigger] sampled.components[c])
        == field.components[c] by {
        crate::fixed_point::lemma_mul_one(field.components[c]);
    }
}

} // verus!
