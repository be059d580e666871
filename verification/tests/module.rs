use ekk::field::{FieldEngine, FieldRegion};
use ekk::fixed_point::Fixed;
use ekk::module::{dead_neighbors, state_after, Module, ProposalType, TaskState};
use ekk::types::{
    Error, Field, FieldComponent, HealthState, ModuleState, Neighbor, Position,
};
use fixed::types::I16F16;

fn fx(value: f64) -> Fixed {
    Fixed::from_bits(I16F16::from_num(value).to_bits())
}

fn neighbor(id: u8, health: HealthState) -> Neighbor {
    let mut n = Neighbor::new(id);
    n.health = health;
    n
}

#[test]
fn test_module_creation() {
    let module = Module::new(1, "test", Position::new(0, 0, 0));
    assert_eq!(module.id(), 1);
    assert_eq!(module.state(), ModuleState::Init);
}

#[test]
fn test_module_tasks() {
    let mut module = Module::new(1, "test", Position::new(0, 0, 0));

    let task_id = module.add_task("task1", 0, 0, 1000).unwrap();

    assert_eq!(task_id, 0);
}

#[test]
fn test_module_start() {
    let mut module = Module::new(1, "test", Position::new(0, 0, 0));
    module.start().unwrap();
    assert_eq!(module.state(), ModuleState::Discovering);
}

#[test]
fn start_only_from_init_and_stop_from_anywhere() {
    let mut module = Module::new(1, "test", Position::new(0, 0, 0));
    assert_eq!(module.name(), "test");
    assert_eq!(module.start(), Ok(()));
    assert_eq!(module.start(), Err(Error::InvalidArg));
    assert_eq!(module.state(), ModuleState::Discovering);
    assert_eq!(module.stop(), Ok(()));
    assert_eq!(module.state(), ModuleState::Shutdown);
    assert_eq!(module.start(), Err(Error::InvalidArg));
    assert_eq!(module.stop(), Ok(()));
}

#[test]
fn ninth_task_is_refused() {
    let mut module = Module::new(1, "test", Position::new(0, 0, 0));
    for i in 0..8u8 {
        assert_eq!(module.add_task("task", i as usize, i, 0), Ok(i));
    }
    assert_eq!(module.add_task("task", 8, 0, 0), Err(Error::NoMemory));
    assert_eq!(module.tasks.len(), 8);
    assert_eq!(module.tasks[7].id, 7);
    assert_eq!(module.tasks[7].handle, 7);
    assert_eq!(module.tasks[7].state, TaskState::Ready);
}

#[test]
fn task_states_are_set_by_id() {
    let mut module = Module::new(1, "test", Position::new(0, 0, 0));
    module.add_task("a", 0, 1, 0).unwrap();
    assert_eq!(module.task_block(0), Ok(()));
    assert_eq!(module.tasks[0].state, TaskState::Blocked);
    assert_eq!(module.select_task(), None);
    assert_eq!(module.task_ready(0), Ok(()));
    assert_eq!(module.tasks[0].state, TaskState::Ready);
    assert_eq!(module.task_ready(1), Err(Error::NotFound));
    assert_eq!(module.task_block(200), Err(Error::NotFound));
}

#[test]
fn selection_takes_the_lowest_priority_number() {
    let mut module = Module::new(1, "test", Position::new(0, 0, 0));
    assert_eq!(module.select_task(), None);
    module.add_task("slow", 0, 200, 0).unwrap();
    module.add_task("fast", 1, 3, 0).unwrap();
    module.add_task("middle", 2, 10, 0).unwrap();
    assert_eq!(module.select_task(), Some(1));
    module.task_block(1).unwrap();
    assert_eq!(module.select_task(), Some(2));
    module.task_block(2).unwrap();
    assert_eq!(module.select_task(), Some(0));
}

#[test]
fn equal_priorities_keep_registration_order() {
    let mut module = Module::new(1, "test", Position::new(0, 0, 0));
    module.add_task("first", 0, 5, 0).unwrap();
    module.add_task("second", 1, 5, 0).unwrap();
    assert_eq!(module.select_task(), Some(0));
}

#[test]
fn backpressure_selects_nothing() {
    let mut module = Module::new(1, "test", Position::new(0, 0, 0));
    module.add_task("first", 0, 5, 0).unwrap();
    module.gradients[0] = Fixed::from_bits(fx(-0.2).to_bits() - 1);
    assert_eq!(module.select_task(), None);
    // at the threshold itself work is still taken
    module.gradients[0] = fx(-0.2);
    assert_eq!(module.select_task(), Some(0));
    module.gradients[0] = fx(0.5);
    assert_eq!(module.select_task(), Some(0));
}

#[test]
fn running_rearms_periodic_tasks_and_retires_one_shots() {
    let mut module = Module::new(1, "test", Position::new(0, 0, 0));
    module.add_task("periodic", 0, 1, 1000).unwrap();
    module.add_task("once", 1, 2, 0).unwrap();
    module.run_task(0, 5000);
    assert_eq!(module.tasks[0].state, TaskState::Ready);
    assert_eq!(module.tasks[0].next_run, 6000);
    assert_eq!(module.tasks[0].run_count, 1);
    assert_eq!(module.tasks[0].total_runtime, 0);
    module.run_task(1, 5000);
    assert_eq!(module.tasks[1].state, TaskState::Idle);
    assert_eq!(module.tasks[1].next_run, 0);
    assert_eq!(module.tasks[1].run_count, 1);
    module.run_task(9, 5000);
    assert_eq!(module.tasks.len(), 2);
    assert_eq!(module.active_task, None);
}

#[test]
fn lifecycle_follows_the_neighbor_count() {
    for k in 0..=7usize {
        let expected = if k >= 3 { ModuleState::Active } else { ModuleState::Discovering };
        assert_eq!(state_after(ModuleState::Discovering, k), expected);
        let expected = if k == 0 {
            ModuleState::Isolated
        } else if k < 3 {
            ModuleState::Degraded
        } else {
            ModuleState::Active
        };
        assert_eq!(state_after(ModuleState::Active, k), expected);
        let expected = if k >= 3 { ModuleState::Active } else { ModuleState::Degraded };
        assert_eq!(state_after(ModuleState::Degraded, k), expected);
        let expected = if k > 0 { ModuleState::Reforming } else { ModuleState::Isolated };
        assert_eq!(state_after(ModuleState::Isolated, k), expected);
        let expected = if k >= 3 { ModuleState::Active } else { ModuleState::Reforming };
        assert_eq!(state_after(ModuleState::Reforming, k), expected);
        assert_eq!(state_after(ModuleState::Shutdown, k), ModuleState::Shutdown);
        assert_eq!(state_after(ModuleState::Init, k), ModuleState::Init);
    }
}

#[test]
fn tick_runs_the_whole_period() {
    let engine = FieldEngine::new();
    let mut region = FieldRegion::new();
    engine.publish(&mut region, 2, &Field::with_values(fx(0.7), fx(0.5), Fixed::zero()), 1000).unwrap();
    engine.publish(&mut region, 3, &Field::with_values(fx(0.7), fx(0.5), Fixed::zero()), 1000).unwrap();
    engine.publish(&mut region, 4, &Field::with_values(fx(0.7), fx(0.5), Fixed::zero()), 1000).unwrap();
    let neighbors = [
        neighbor(2, HealthState::Alive),
        neighbor(3, HealthState::Alive),
        neighbor(4, HealthState::Alive),
    ];

    let mut module = Module::new(1, "test", Position::new(0, 0, 0));
    module.start().unwrap();
    module.update_field(fx(0.3), fx(0.5), fx(0.1));
    module.add_task("periodic", 11, 1, 1000).unwrap();

    let report = module.tick(&mut region, 1000, 1, &neighbors, true, 3);
    assert_eq!(report.result, Ok(()));
    assert_eq!(report.ran_task, Some(0));
    assert_eq!(report.previous_state, Some(ModuleState::Discovering));
    assert_eq!(module.state(), ModuleState::Active);
    assert_eq!(module.neighbor_count(), 3);
    assert_eq!(module.get_gradient(FieldComponent::Load).to_bits(), 26214);
    assert_eq!(module.gradients()[1], Fixed::zero());
    assert_eq!(module.neighbor_aggregate.components[0], fx(0.7));
    assert_eq!(module.last_tick, 1000);
    assert_eq!(module.ticks_total, 1);
    assert_eq!(module.topology_changes, 2);
    assert_eq!(module.field_updates, 1);
    assert_eq!(module.tasks[0].run_count, 1);
    assert_eq!(module.tasks[0].next_run, 2000);
    assert_eq!(region.fields[1].source, 1);
    assert_eq!(region.fields[1].timestamp, 1000);
    assert_eq!(region.fields[1].components[0], fx(0.3));

    let status = module.status();
    assert_eq!(status.id, 1);
    assert_eq!(status.state, ModuleState::Active);
    assert_eq!(status.neighbor_count, 3);
    assert_eq!(status.load_gradient.to_bits(), 26214);
    assert_eq!(status.thermal_gradient, Fixed::zero());
    assert_eq!(status.active_ballots, 0);
    assert_eq!(status.ticks_total, 1);

    // no neighbor left: the aggregate is empty and the module isolated
    let report = module.tick(&mut region, 2000, 0, &[], false, 0);
    assert_eq!(report.previous_state, Some(ModuleState::Active));
    assert_eq!(module.state(), ModuleState::Isolated);
    assert_eq!(module.neighbor_aggregate.components, [Fixed::zero(); 5]);
    // the module is more loaded than the empty neighborhood by 0.3
    assert_eq!(module.get_gradient(FieldComponent::Load), fx(-0.3));
    assert_eq!(report.ran_task, None);
    assert_eq!(module.tasks[0].run_count, 1);
    assert_eq!(region.fields[1].sequence, 2);

    module.stop().unwrap();
    let report = module.tick(&mut region, 3000, 0, &neighbors, false, 7);
    assert_eq!(report.previous_state, None);
    assert_eq!(module.state(), ModuleState::Shutdown);
}

#[test]
fn tick_of_a_module_without_an_id_cannot_publish() {
    let mut region = FieldRegion::new();
    let mut module = Module::new(0, "nobody", Position::new(0, 0, 0));
    module.start().unwrap();
    module.add_task("once", 0, 1, 0).unwrap();
    let report = module.tick(&mut region, 10, 0, &[], false, 5);
    assert_eq!(report.result, Err(Error::InvalidArg));
    assert_eq!(report.ran_task, Some(0));
    assert_eq!(report.previous_state, None);
    assert_eq!(module.state(), ModuleState::Discovering);
    assert_eq!(module.field_updates, 0);
    assert_eq!(module.ticks_total, 1);
    assert_eq!(module.tasks[0].state, TaskState::Idle);
    assert_eq!(region.update_flags, 0);
}

#[test]
fn dead_neighbors_are_collected_in_order() {
    let observed = [
        (2u8, HealthState::Alive),
        (3u8, HealthState::Dead),
        (4u8, HealthState::Suspect),
        (5u8, HealthState::Dead),
    ];
    assert_eq!(dead_neighbors(2, &observed), vec![3, 5]);
    assert_eq!(dead_neighbors(0, &observed), Vec::<u8>::new());
    assert_eq!(dead_neighbors(1, &observed[..1]), Vec::<u8>::new());
}

#[test]
fn proposals_carry_their_thresholds() {
    let mut module = Module::new(1, "test", Position::new(0, 0, 0));
    let mode = module.propose_mode(7, 100);
    assert_eq!(mode.kind, ProposalType::ModeChange);
    assert_eq!(mode.value, 7);
    assert_eq!(mode.threshold.to_bits(), 0xAB85);
    assert_eq!(mode.now, 100);
    let power = module.propose_power_limit(1500, 200);
    assert_eq!(power.kind, ProposalType::PowerLimit);
    assert_eq!(power.value, 1500);
    assert_eq!(power.threshold, fx(0.5));
    assert_eq!(module.consensus_rounds, 2);
}
