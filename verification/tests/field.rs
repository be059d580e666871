use ekk::field::{decay_factor_at, DecayModel, FieldConfig, FieldEngine, FieldRegion};
use ekk::fixed_point::Fixed;
use ekk::types::{Error, Field, FieldComponent, HealthState, Neighbor};
use fixed::types::I16F16;

fn fx(value: f64) -> Fixed {
    Fixed::from_bits(I16F16::from_num(value).to_bits())
}

fn neighbor(id: u8, health: HealthState) -> Neighbor {
    let mut n = Neighbor::new(id);
    n.health = health;
    n
}

#[test]
fn test_field_publish_sample() {
    let engine = FieldEngine::new();
    let mut region = FieldRegion::new();

    let field = Field::with_values(fx(0.5), fx(0.3), fx(0.8));

    engine.publish(&mut region, 1, &field, 1000).unwrap();

    let sampled = engine.sample(&region, 1, 1000).unwrap();
    assert_eq!(sampled.get(FieldComponent::Load), fx(0.5));
}

#[test]
fn test_gradient_calculation() {
    let engine = FieldEngine::new();

    let my_field = Field::with_values(fx(0.3), Fixed::zero(), Fixed::zero());

    let neighbor_field = Field::with_values(fx(0.7), Fixed::zero(), Fixed::zero());

    let gradient = engine.gradient(&my_field, &neighbor_field, FieldComponent::Load);
    assert!(gradient.to_bits() > 0); // Neighbors have higher load
}

#[test]
fn gradient_is_neighbors_minus_self() {
    let engine = FieldEngine::new();
    let mine = Field::with_values(fx(0.3), fx(0.5), fx(0.25));
    let theirs = Field::with_values(fx(0.7), fx(0.25), fx(0.25));
    let g = engine.gradient(&mine, &theirs, FieldComponent::Load);
    assert_eq!(g.to_bits(), 26214);
    assert_eq!(g, fx(0.4));
    let all = engine.gradient_all(&mine, &theirs);
    assert_eq!(all[0].to_bits(), 26214);
    assert_eq!(all[1], fx(-0.25));
    assert_eq!(all[2], Fixed::zero());
    assert_eq!(all[3], Fixed::zero());
    assert_eq!(all[4], Fixed::zero());
}

#[test]
fn decay_factor_hits_its_checkpoints() {
    assert_eq!(decay_factor_at(0), Fixed::one());
    assert_eq!(decay_factor_at(1).to_bits(), 65535);
    // values between two representable numbers go to the nearer one
    assert_eq!(decay_factor_at(2).to_bits(), 65535);
    assert_eq!(decay_factor_at(3).to_bits(), 65534);
    assert_eq!(decay_factor_at(50_000), fx(0.5));
    assert_eq!(decay_factor_at(99_999).to_bits(), 1);
    assert_eq!(decay_factor_at(100_000), fx(0.5));
    assert_eq!(decay_factor_at(150_000), fx(0.25));
    assert_eq!(decay_factor_at(199_999).to_bits(), 0);
    assert_eq!(decay_factor_at(200_000), fx(0.25));
    assert_eq!(decay_factor_at(250_000), fx(0.125));
    assert_eq!(decay_factor_at(299_999).to_bits(), 0);
    assert_eq!(decay_factor_at(300_000), Fixed::zero());
    assert_eq!(decay_factor_at(u64::MAX), Fixed::zero());
}

#[test]
fn decay_never_grows_within_a_segment() {
    let mut previous = decay_factor_at(0).to_bits();
    let mut t = 0u64;
    while t < 100_000 {
        let now = decay_factor_at(t).to_bits();
        assert!(now <= previous);
        previous = now;
        t += 997;
    }
    let mut previous = decay_factor_at(100_000).to_bits();
    let mut t = 100_000u64;
    while t < 200_000 {
        let now = decay_factor_at(t).to_bits();
        assert!(now <= previous);
        previous = now;
        t += 997;
    }
}

#[test]
fn sample_applies_decay_and_expires() {
    let engine = FieldEngine::new();
    let mut region = FieldRegion::new();
    let field = Field::with_values(fx(0.5), fx(1.0), fx(-2.0));
    engine.publish(&mut region, 9, &field, 1_000).unwrap();

    let half = engine.sample(&region, 9, 51_000).unwrap();
    assert_eq!(half.components[0], fx(0.25));
    assert_eq!(half.components[1], fx(0.5));
    assert_eq!(half.components[2], fx(-1.0));
    assert_eq!(half.timestamp, 1_000);
    assert_eq!(half.source, 9);
    assert_eq!(half.sequence, 1);

    // a clock that lies before the publication counts as no time elapsed
    let early = engine.sample(&region, 9, 10).unwrap();
    assert_eq!(early.components[0], fx(0.5));

    let gone = engine.sample(&region, 9, 301_000).unwrap();
    assert_eq!(gone.components, [Fixed::zero(); 5]);

    assert!(engine.sample(&region, 9, 501_000).is_ok());
    assert_eq!(engine.sample(&region, 9, 501_001).err(), Some(Error::FieldExpired));
    assert_eq!(engine.sample(&region, 8, 1_000).err(), Some(Error::NotFound));
}

#[test]
fn publish_rejects_the_invalid_id() {
    let engine = FieldEngine::new();
    let mut region = FieldRegion::new();
    let field = Field::with_values(fx(0.5), fx(0.3), fx(0.8));
    assert_eq!(engine.publish(&mut region, 0, &field, 1000), Err(Error::InvalidArg));
    assert_eq!(region.fields[0].source, 0);
    assert_eq!(region.update_flags, 0);
    assert_eq!(engine.publish(&mut region, 255, &field, 1000), Ok(()));
    assert_eq!(region.fields[255].source, 255);
}

#[test]
fn publish_stamps_counts_and_flags() {
    let engine = FieldEngine::new();
    let mut region = FieldRegion::new();
    let field = Field::with_values(fx(0.5), fx(0.3), fx(0.8));
    engine.publish(&mut region, 33, &field, 77).unwrap();
    let slot = *region.get(33).unwrap();
    assert_eq!(slot.components, field.components);
    assert_eq!(slot.timestamp, 77);
    assert_eq!(slot.source, 33);
    assert_eq!(slot.sequence, 1);
    assert_eq!(region.update_flags, 1 << 1);
    engine.publish(&mut region, 5, &field, 78).unwrap();
    assert_eq!(region.update_flags, (1 << 1) | (1 << 5));
    for _ in 0..255 {
        engine.publish(&mut region, 33, &field, 79).unwrap();
    }
    // the sequence counter wraps
    assert_eq!(region.fields[33].sequence, 0);
    assert_eq!(region.fields[34].source, 0);
}

#[test]
fn aggregate_weights_by_health() {
    let engine = FieldEngine::new();
    let mut region = FieldRegion::new();
    engine.publish(&mut region, 1, &Field::with_values(fx(1.0), fx(0.5), Fixed::zero()), 1000).unwrap();
    engine.publish(&mut region, 2, &Field::with_values(fx(0.0), fx(0.5), Fixed::zero()), 1000).unwrap();
    engine.publish(&mut region, 3, &Field::with_values(fx(100.0), fx(100.0), fx(100.0)), 1000).unwrap();
    let neighbors = [
        neighbor(1, HealthState::Alive),
        neighbor(2, HealthState::Suspect),
        neighbor(3, HealthState::Dead),
    ];
    let aggregate = engine.sample_neighbors(&region, &neighbors, 1000);
    assert_eq!(aggregate.components[0].to_bits(), 43690);
    assert_eq!(aggregate.components[1], fx(0.5));
    assert_eq!(aggregate.components[2], Fixed::zero());
    assert_eq!(aggregate.source, 0);
    assert_eq!(aggregate.timestamp, 0);
}

#[test]
fn aggregate_leaves_out_what_cannot_be_sampled() {
    let engine = FieldEngine::new();
    let mut region = FieldRegion::new();
    engine.publish(&mut region, 1, &Field::with_values(fx(0.8), Fixed::zero(), Fixed::zero()), 550_000).unwrap();
    engine.publish(&mut region, 2, &Field::with_values(fx(0.4), Fixed::zero(), Fixed::zero()), 600_000).unwrap();
    engine.publish(&mut region, 3, &Field::with_values(fx(9.0), Fixed::zero(), Fixed::zero()), 99_999).unwrap();
    let neighbors = [
        neighbor(1, HealthState::Alive),
        neighbor(2, HealthState::Suspect),
        neighbor(3, HealthState::Alive),
        neighbor(4, HealthState::Alive),
        neighbor(2, HealthState::Unknown),
    ];
    // neighbor 3 is stale by now, neighbor 4 never published
    let aggregate = engine.sample_neighbors(&region, &neighbors, 600_000);
    assert_eq!(aggregate.components[0].to_bits(), 26214);

    let nobody = engine.sample_neighbors(&region, &neighbors[2..], 600_000);
    assert_eq!(nobody.components, [Fixed::zero(); 5]);
    let empty = engine.sample_neighbors(&region, &[], 600_000);
    assert_eq!(empty.components, [Fixed::zero(); 5]);
}

#[test]
fn gc_clears_what_is_older_than_max_age() {
    let engine = FieldEngine::new();
    let mut region = FieldRegion::new();
    let field = Field::with_values(fx(0.5), fx(0.3), fx(0.8));
    engine.publish(&mut region, 1, &field, 100).unwrap();
    engine.publish(&mut region, 2, &field, 200).unwrap();
    engine.publish(&mut region, 3, &field, 300).unwrap();
    engine.publish(&mut region, 200, &field, 150).unwrap();

    // age must exceed the limit: the slot of age 100 stays
    assert_eq!(engine.gc(&mut region, 300, 100), 2);
    assert_eq!(region.last_gc, 300);
    assert_eq!(region.fields[1].source, 0);
    assert_eq!(region.fields[1].components, [Fixed::zero(); 5]);
    assert_eq!(region.fields[1].sequence, 0);
    assert_eq!(region.fields[200].source, 0);
    assert_eq!(region.fields[2].source, 2);
    assert_eq!(region.fields[3].source, 3);
    assert_eq!(engine.sample(&region, 1, 300).err(), Some(Error::NotFound));

    assert_eq!(engine.gc(&mut region, 301, 100), 1);
    assert_eq!(engine.gc(&mut region, 301, 100), 0);
    assert_eq!(engine.gc(&mut region, u64::MAX, 0), 1);
    assert_eq!(region.last_gc, u64::MAX);
}

#[test]
fn field_arithmetic() {
    let a = Field::with_values(fx(1.0), fx(0.5), fx(-0.25));
    let b = Field::with_values(fx(0.0), fx(2.0), fx(0.25));
    let sum = a.add(&b);
    assert_eq!(sum.components[0], fx(1.0));
    assert_eq!(sum.components[1], fx(2.5));
    assert_eq!(sum.components[2], Fixed::zero());
    let scaled = a.scale(fx(0.5));
    assert_eq!(scaled.components[0], fx(0.5));
    assert_eq!(scaled.components[1], fx(0.25));
    assert_eq!(scaled.components[2], fx(-0.125));
    let mixed = a.lerp(&b, fx(0.25));
    assert_eq!(mixed.components[0].to_bits(), 49152);
    assert_eq!(mixed.components[1], fx(0.875));
    assert_eq!(mixed.components[2], fx(-0.125));
    assert_eq!(a.lerp(&b, Fixed::zero()).components, a.components);
    assert_eq!(a.lerp(&b, Fixed::one()).components, b.components);
}

#[test]
fn default_configuration() {
    let config = FieldConfig::default();
    assert_eq!(config.decay_tau, fx(0.1));
    assert_eq!(config.decay_model, DecayModel::Exponential);
    assert_eq!(config.min_value, Fixed::zero());
    assert_eq!(config.max_value, Fixed::one());
    assert_eq!(config.default_value, Fixed::zero());
    assert_eq!(DecayModel::default(), DecayModel::Exponential);
    let engine = FieldEngine::default();
    assert_eq!(engine.config[4].decay_tau.to_bits(), 6554);
    let region = FieldRegion::default();
    assert_eq!(region.last_gc, 0);
}

#[test]
fn slots_are_reached_by_id() {
    let mut region = FieldRegion::new();
    assert_eq!(region.get(7).unwrap().source, 0);
    {
        let slot = region.get_mut(7).unwrap();
        slot.source = 7;
        slot.timestamp = 42;
    }
    assert_eq!(region.get(7).unwrap().source, 7);
    assert_eq!(region.fields[7].timestamp, 42);
    assert_eq!(region.fields[8].source, 0);
    assert!(region.get(255).is_some());
}
