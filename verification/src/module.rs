//! The module as the unit of coordination.
//!
//! There is no global scheduler. Each module owns its tasks, perceives the
//! field of its neighborhood, derives a gradient from it, and decides locally
//! which task to run and which lifecycle state to take. What the topology,
//! heartbeat and consensus services observe is handed in as plain values,
//! and what they are to do next is handed back.

use vstd::prelude::*;
use crate::field::{aggregate_component, published, FieldEngine, FieldRegion};
use crate::fixed_point::Fixed;
use crate::types::{
    Error, Field, FieldComponent, HealthState, ModuleId, ModuleState, Neighbor, Position, TaskId,
    TimeUs, INVALID_MODULE_ID, K_NEIGHBORS, MAX_TASKS_PER_MODULE,
};

verus! {

/// Task state within a module.
#[derive(Debug, Clone, Copy, PartialEq, Eq, Structural)]
pub enum TaskState {
    /// Not running
    Idle,
    /// Ready to run
    Ready,
    /// Currently executing
    Running,
    /// Waiting for event
    Blocked,
}

impl Default for TaskState {
    fn default() -> (s: TaskState)
        ensures
            s == TaskState::Idle,
    {
        TaskState::Idle
    }
}

/// Internal task (owned by its module).
#[derive(Debug, Clone, Copy)]
pub struct InternalTask {
    /// Task ID within module
    pub id: TaskId,
    /// Task name (for debugging)
    pub name: &'static str,
    /// Handle of the task's callable and its context in the caller's table
    pub handle: usize,
    /// Current state
    pub state: TaskState,
    /// Local priority (0 = highest)
    pub priority: u8,
    /// Period for periodic tasks (0 = one-shot)
    pub period: TimeUs,
    /// Next scheduled run time
    pub next_run: TimeUs,
    /// Execution count
    pub run_count: u32,
    /// Total runtime in microseconds
    pub total_runtime: TimeUs,
}

impl Default for InternalTask {
    fn default() -> (t: InternalTask)
        ensures
            t.id == 0,
            t.name@ == Seq::<char>::empty(),
            t.handle == 0,
            t.state == TaskState::Idle,
            t.priority == 255,
            t.period == 0,
            t.next_run == 0,
            t.run_count == 0,
            t.total_runtime == 0,
    {
        proof {
            reveal_strlit("");
        }
        InternalTask {
            id: 0,
            name: "",
            handle: 0,
            state: TaskState::Idle,
            priority: 255,
            period: 0,
            next_run: 0,
            run_count: 0,
            total_runtime: 0,
        }
    }
}

/// The bounded vector of `heapless`, which keeps a module's tasks.
#[verifier::external_type_specification]
#[verifier::external_body]
#[verifier::reject_recursive_types(T)]
pub struct ExBoundedVec<T, const N: usize>(heapless::Vec<T, N>);

/// The tasks that a task list holds, in the order of their registration.
pub uninterp spec fn task_list(tasks: heapless::Vec<InternalTask, 8>) -> Seq<InternalTask>;

/// Calls `heapless::Vec::new`. Claims that the new list holds no task.
#[verifier::external_body]
fn tasks_new() -> (tasks: heapless::Vec<InternalTask, 8>)
    ensures
        task_list(tasks) == Seq::<InternalTask>::empty(),
{
    heapless::Vec::new()
}

/// Calls `heapless::Vec::len`. Claims that it is the number of tasks held,
/// which never exceeds the capacity of eight.
#[verifier::external_body]
fn tasks_len(tasks: &heapless::Vec<InternalTask, 8>) -> (n: usize)
    ensures
        n == task_list(*tasks).len(),
        n <= 8,
{
    tasks.len()
}

/// What appending to a list of capacity eight does: below capacity the task
/// goes behind the others; at capacity the list stays as it is and the task
/// is handed back.
pub open spec fn push_outcome(
    before: Seq<InternalTask>,
    after: Seq<InternalTask>,
    task: InternalTask,
    r: Result<(), InternalTask>,
) -> bool {
    if before.len() < 8 {
        r.is_ok() && after == before.push(task)
    } else {
        r == Err::<(), InternalTask>(task) && after == before
    }
}

/// Calls `heapless::Vec::push`. Claims that below capacity the task is
/// appended behind the others, and that at capacity the list stays as it is
/// and the task is handed back.
#[verifier::external_body]
fn tasks_push(tasks: &mut heapless::Vec<InternalTask, 8>, task: InternalTask) -> (r: Result<(), InternalTask>)
    ensures
        push_outcome(task_list(*old(tasks)), task_list(*final(tasks)), task, r),
{
    tasks.push(task)
}

/// Reads one element through the slice that `heapless::Vec` dereferences
/// to. Claims that it is the task at that position.
#[verifier::external_body]
fn tasks_get(tasks: &heapless::Vec<InternalTask, 8>, index: usize) -> (task: InternalTask)
    requires
        index < task_list(*tasks).len(),
    ensures
        task == task_list(*tasks)[index as int],
{
    tasks[index]
}

/// Writes one element through the mutable slice that `heapless::Vec`
/// dereferences to. Claims that only the task at that position changes.
#[verifier::external_body]
fn tasks_set(tasks: &mut heapless::Vec<InternalTask, 8>, index: usize, task: InternalTask)
    requires
        index < task_list(*old(tasks)).len(),
    ensures
        task_list(*final(tasks)) == task_list(*old(tasks)).update(index as int, task),
{
    tasks[index] = task;
}

/// Load gradient below which a module takes no new work: about -0.2.
pub const BACKPRESSURE_BITS: i32 = -13107;

/// Number of live neighbors from which a module counts as connected.
pub const ACTIVE_NEIGHBORS: usize = 3;

/// The lifecycle state that follows `state` when `k` neighbors are live.
pub open spec fn next_state(state: ModuleState, k: int) -> ModuleState {
    match state {
        ModuleState::Discovering => if k >= 3 {
            ModuleState::Active
        } else {
            ModuleState::Discovering
        },
        ModuleState::Active => if k == 0 {
            ModuleState::Isolated
        } else if k < 3 {
            ModuleState::Degraded
        } else {
            ModuleState::Active
        },
        ModuleState::Degraded => if k >= 3 {
            ModuleState::Active
        } else {
            ModuleState::Degraded
        },
        ModuleState::Isolated => if k > 0 {
            ModuleState::Reforming
        } else {
            ModuleState::Isolated
        },
        ModuleState::Reforming => if k >= 3 {
            ModuleState::Active
        } else {
            ModuleState::Reforming
        },
        ModuleState::Init => ModuleState::Init,
        ModuleState::Shutdown => ModuleState::Shutdown,
    }
}

/// Compute the lifecycle state that follows `state` when `count` neighbors
/// are live.
pub fn state_after(state: ModuleState, count: usize) -> (next: ModuleState)
    ensures
        next == next_state(state, count as int),
{
    let connected: bool = count >= K_NEIGHBORS / 2;
    match state {
        ModuleState::Discovering => if connected {
            ModuleState::Active
        } else {
            ModuleState::Discovering
        },
        ModuleState::Active => if count == 0 {
            ModuleState::Isolated
        } else if !connected {
            ModuleState::Degraded
        } else {
            ModuleState::Active
        },
        ModuleState::Degraded => if connected {
            ModuleState::Active
        } else {
            ModuleState::Degraded
        },
        ModuleState::Isolated => if count > 0 {
            ModuleState::Reforming
        } else {
            ModuleState::Isolated
        },
        ModuleState::Reforming => if connected {
            ModuleState::Active
        } else {
            ModuleState::Reforming
        },
        ModuleState::Init => ModuleState::Init,
        ModuleState::Shutdown => ModuleState::Shutdown,
    }
}

/// With seven neighbors at most: a discovering module becomes active exactly
/// from three live neighbors on; an active one becomes degraded exactly at
/// one or two, and isolated exactly at none; nothing leads out of shutdown,
/// nor out of the initial state.
pub proof fn lemma_lifecycle_transitions(k: int)
    requires
        0 <= k,
    ensures
        next_state(ModuleState::Discovering, k) == ModuleState::Active <==> k >= 3,
        next_state(ModuleState::Active, k) == ModuleState::Degraded <==> 1 <= k <= 2,
        next_state(ModuleState::Active, k) == ModuleState::Isolated <==> k == 0,
        next_state(ModuleState::Degraded, k) == ModuleState::Degraded <==> k < 3,
        next_state(ModuleState::Shutdown, k) == ModuleState::Shutdown,
        next_state(ModuleState::Init, k) == ModuleState::Init,
        forall|s: ModuleState|
            next_state(s, k) == ModuleState::Isolated ==> s == ModuleState::Isolated || k == 0,
        forall|s: ModuleState|
            s != ModuleState::Shutdown ==> next_state(s, k) != ModuleState::Shutdown,
{
}

/// Whether the task at `index` is the one to run: it is ready, no ready task
/// has a lower priority number, and every ready task registered before it
/// has a higher one.
pub open spec fn is_best_ready(tasks: Seq<InternalTask>, index: int) -> bool {
    &&& 0 <= index < tasks.len()
    &&& tasks[index].state == TaskState::Ready
    &&& forall|j: int|
        0 <= j < tasks.len() && (#[trigger] tasks[j]).state == TaskState::Ready
            ==> tasks[index].priority <= tasks[j].priority
    &&& forall|j: int|
        0 <= j < index && (#[trigger] tasks[j]).state == TaskState::Ready ==> tasks[index].priority
            < tasks[j].priority
}

/// Whether no task is ready.
pub open spec fn none_ready(tasks: Seq<InternalTask>) -> bool {
    forall|j: int| 0 <= j < tasks.len() ==> (#[trigger] tasks[j]).state != TaskState::Ready
}

/// Whether `choice` is what the selection policy yields for the tasks under
/// the load gradient: nothing under backpressure or without a ready task,
/// else the best ready task.
pub open spec fn is_selection(
    tasks: Seq<InternalTask>,
    load_gradient: Fixed,
    choice: Option<TaskId>,
) -> bool {
    match choice {
        Some(id) => load_gradient.bits >= BACKPRESSURE_BITS && is_best_ready(tasks, id as int),
        None => load_gradient.bits < BACKPRESSURE_BITS || none_ready(tasks),
    }
}

/// The selection policy yields one result only.
pub proof fn lemma_selection_unique(
    tasks: Seq<InternalTask>,
    load_gradient: Fixed,
    a: Option<TaskId>,
    b: Option<TaskId>,
)
    requires
        is_selection(tasks, load_gradient, a),
        is_selection(tasks, load_gradient, b),
    ensures
        a == b,
{
    if a.is_some() && b.is_some() {
        let i = a.unwrap() as int;
        let j = b.unwrap() as int;
        if i < j {
            assert(tasks[i].state == TaskState::Ready);
        } else if j < i {
            assert(tasks[j].state == TaskState::Ready);
        }
    } else if a.is_some() {
        assert(tasks[a.unwrap() as int].state == TaskState::Ready);
    } else if b.is_some() {
        assert(tasks[b.unwrap() as int].state == TaskState::Ready);
    }
}

/// Under backpressure nothing is selected, whatever tasks are ready.
pub proof fn lemma_backpressure_selects_nothing(
    tasks: Seq<InternalTask>,
    load_gradient: Fixed,
    choice: Option<TaskId>,
)
    requires
        is_selection(tasks, load_gradient, choice),
        load_gradient.bits < BACKPRESSURE_BITS,
    ensures
        choice.is_none(),
{
}

/// Of two ready tasks of equal priority the one registered later is never
/// selected.
pub proof fn lemma_tie_keeps_first(
    tasks: Seq<InternalTask>,
    load_gradient: Fixed,
    choice: Option<TaskId>,
    first: int,
    second: int,
)
    requires
        is_selection(tasks, load_gradient, choice),
        tasks.len() <= 8,
        0 <= first < second < tasks.len(),
        tasks[first].state == TaskState::Ready,
        tasks[second].state == TaskState::Ready,
        tasks[first].priority == tasks[second].priority,
    ensures
        choice != Some(second as TaskId),
        choice.is_none() ==> load_gradient.bits < BACKPRESSURE_BITS,
{
}

/// A task after one run at `now`: one more run counted, no runtime measured,
/// a periodic task re-armed and ready again, a one-shot task retired.
pub open spec fn task_after_run(task: InternalTask, now: TimeUs) -> InternalTask {
    InternalTask {
        state: if task.period > 0 {
            TaskState::Ready
        } else {
            TaskState::Idle
        },
        next_run: if task.period > 0 {
            if now + task.period > u64::MAX {
                (now + task.period - 0x1_0000_0000_0000_0000) as u64
            } else {
                (now + task.period) as u64
            }
        } else {
            task.next_run
        },
        run_count: if task.run_count == u32::MAX {
            0
        } else {
            (task.run_count + 1) as u32
        },
        ..task
    }
}

/// Kind of a proposal put to the consensus service.
#[derive(Debug, Clone, Copy, PartialEq, Eq, Structural)]
pub enum ProposalType {
    /// Change of the cluster's operating mode
    ModeChange,
    /// Change of the cluster's power limit
    PowerLimit,
}

/// A proposal for the consensus service to put to the vote.
#[derive(Debug, Clone, Copy)]
pub struct Proposal {
    /// What is proposed
    pub kind: ProposalType,
    /// The proposed value
    pub value: u32,
    /// Share of approvals that carries the proposal
    pub threshold: Fixed,
    /// When it was proposed
    pub now: TimeUs,
}

/// Module status summary.
#[derive(Debug, Clone, Copy)]
pub struct ModuleStatus {
    pub id: ModuleId,
    pub state: ModuleState,
    pub neighbor_count: u32,
    pub load_gradient: Fixed,
    pub thermal_gradient: Fixed,
    pub active_ballots: u32,
    pub ticks_total: u32,
}

/// What one coordination tick did, for the caller to act on.
#[derive(Debug, Clone, Copy)]
pub struct TickReport {
    /// The task chosen for this period, whose callable is now to be invoked
    pub ran_task: Option<TaskId>,
    /// The lifecycle state that was left, where the tick changed it
    pub previous_state: Option<ModuleState>,
    /// Whether the module's own field was published
    pub result: Result<(), Error>,
}

/// Module: a self-contained coordination unit that owns its tasks, publishes
/// its coordination field and schedules itself by the gradient.
pub struct Module {
    /// Module ID
    pub id: ModuleId,
    /// Module name (for debugging)
    pub name: &'static str,
    /// Where the module sits
    pub position: Position,
    /// Current state
    pub state: ModuleState,
    /// My current field values
    pub my_field: Field,
    /// Aggregated neighbor fields
    pub neighbor_aggregate: Field,
    /// Current gradients
    pub gradients: [Fixed; 5],
    /// Field engine
    pub field_engine: FieldEngine,
    /// Tasks owned by this module
    pub tasks: heapless::Vec<InternalTask, 8>,
    /// Currently running task (or None)
    pub active_task: Option<TaskId>,
    /// Live neighbors seen at the last tick
    pub neighbor_count: usize,
    /// Last tick timestamp
    pub last_tick: TimeUs,
    /// Tick period
    pub tick_period: TimeUs,
    /// Total ticks
    pub ticks_total: u32,
    /// Field updates
    pub field_updates: u32,
    /// Topology changes
    pub topology_changes: u32,
    /// Consensus rounds
    pub consensus_rounds: u32,
}

/// A 32-bit counter after `n` more events, wrapping at its limit.
pub open spec fn counter_after(counter: u32, n: int) -> u32 {
    ((counter + n) % 0x1_0000_0000) as u32
}

/// The ids of the neighbors found dead among the first `k` observations, in
/// the order of the observations.
pub open spec fn dead_ids(observed: Seq<(ModuleId, HealthState)>, k: int) -> Seq<ModuleId>
    decreases k,
{
    if k <= 0 {
        Seq::empty()
    } else {
        let prev = dead_ids(observed, k - 1);
        if observed[k - 1].1 == HealthState::Dead {
            prev.push(observed[k - 1].0)
        } else {
            prev
        }
    }
}

/// Collect the neighbors to drop after a heartbeat step.
///
/// `health_changed` is the number of health transitions that the step
/// reported, `observed` each neighbor's id with its health after the step.
/// With no transition nobody is dropped; else every neighbor found dead is,
/// in the order of the observations.
pub fn dead_neighbors(health_changed: u32, observed: &[(ModuleId, HealthState)]) -> (dead: Vec<
    ModuleId,
>)
    ensures
        health_changed == 0 ==> dead@ == Seq::<ModuleId>::empty(),
        health_changed > 0 ==> dead@ == dead_ids(observed@, observed@.len() as int),
{
    let mut dead: Vec<ModuleId> = Vec::new();
    if health_changed > 0 {
        let mut k: usize = 0;
        while k < observed.len()
            invariant
                k <= observed.len(),
                dead@ == dead_ids(observed@, k as int),
            decreases observed.len() - k,
        {
            let (id, health) = observed[k];
            match health {
                HealthState::Dead => {
                    dead.push(id);
                },
                _ => {},
            }
            k += 1;
        }
    }
    dead
}

/// What one coordination tick does to a module and to the region.
///
/// The tick is stamped and counted; the neighborhood aggregate and the
/// gradients are recomputed from the region as it was; the topology changes
/// are counted; the selected task, if any, is accounted for as run; the
/// module's own field is published; and the lifecycle state follows the
/// number of live neighbors. A module with the reserved invalid id cannot
/// publish: its tick ends with `InvalidArg` before the publication is
/// counted and the state re-evaluated.
pub open spec fn ticked(
    pre: Module,
    post: Module,
    region_pre: FieldRegion,
    region_post: FieldRegion,
    now: TimeUs,
    lost: u32,
    neighbors: Seq<Neighbor>,
    topology_changed: bool,
    neighbor_count: usize,
    report: TickReport,
) -> bool {
    &&& post.id == pre.id
    &&& post.name == pre.name
    &&& post.position == pre.position
    &&& post.my_field == pre.my_field
    &&& post.field_engine == pre.field_engine
    &&& post.tick_period == pre.tick_period
    &&& post.consensus_rounds == pre.consensus_rounds
    &&& post.last_tick == now
    &&& post.ticks_total == counter_after(pre.ticks_total, 1)
    &&& post.neighbor_count == neighbor_count
    &&& forall|c: int|
        0 <= c < 5 ==> (#[trigger] post.neighbor_aggregate.components[c]) == aggregate_component(
            region_pre,
            neighbors,
            now,
            c,
        )
    &&& post.neighbor_aggregate.timestamp == 0
    &&& post.neighbor_aggregate.source == INVALID_MODULE_ID
    &&& post.neighbor_aggregate.sequence == 0
    &&& forall|c: int|
        0 <= c < 5 ==> (#[trigger] post.gradients[c])
            == post.neighbor_aggregate.components[c].spec_wrapping_sub(pre.my_field.components[c])
    &&& post.topology_changes == counter_after(
        counter_after(pre.topology_changes, lost as int),
        if topology_changed {
            1
        } else {
            0
        },
    )
    &&& is_selection(pre.spec_tasks(), post.gradients[0], report.ran_task)
    &&& match report.ran_task {
        Some(id) => post.spec_tasks() == pre.spec_tasks().update(
            id as int,
            task_after_run(pre.spec_tasks()[id as int], now),
        ) && post.active_task.is_none(),
        None => post.tasks == pre.tasks && post.active_task == pre.active_task,
    }
    &&& if pre.id != INVALID_MODULE_ID {
        &&& report.result == Ok::<(), Error>(())
        &&& published(region_pre, region_post, pre.id, pre.my_field, now)
        &&& post.field_updates == counter_after(pre.field_updates, 1)
        &&& post.state == next_state(pre.state, neighbor_count as int)
        &&& report.previous_state == if post.state != pre.state {
            Some(pre.state)
        } else {
            None
        }
    } else {
        &&& report.result == Err::<(), Error>(Error::InvalidArg)
        &&& region_post == region_pre
        &&& post.field_updates == pre.field_updates
        &&& post.state == pre.state
        &&& report.previous_state.is_none()
    }
}

impl Module {
    /// The module's tasks, in the order of their registration.
    pub open spec fn spec_tasks(self) -> Seq<InternalTask> {
        task_list(self.tasks)
    }

    /// Validity of a module: it holds at most eight tasks, and each task's id
    /// is its position in the order of registration.
    pub open spec fn wf(self) -> bool {
        &&& self.spec_tasks().len() <= 8
        &&& forall|i: int|
            0 <= i < self.spec_tasks().len() ==> (#[trigger] self.spec_tasks()[i]).id == i
    }

    /// Create a new module: in the initial state, with empty fields, no task
    /// and all counters at zero.
    pub fn new(id: ModuleId, name: &'static str, position: Position) -> (m: Module)
        ensures
            m.wf(),
            m.id == id,
            m.name == name,
            m.position == position,
            m.state == ModuleState::Init,
            m.my_field.spec_empty(),
            m.neighbor_aggregate.spec_empty(),
            forall|c: int| 0 <= c < 5 ==> (#[trigger] m.gradients[c]) == Fixed::spec_zero(),
            m.spec_tasks() == Seq::<InternalTask>::empty(),
            m.active_task.is_none(),
            m.neighbor_count == 0,
            m.last_tick == 0,
            m.tick_period == 1000,
            m.ticks_total == 0,
            m.field_updates == 0,
            m.topology_changes == 0,
            m.consensus_rounds == 0,
    {
        Module {
            id,
            name,
            position,
            state: ModuleState::Init,
            my_field: Field::new(),
            neighbor_aggregate: Field::new(),
            gradients: [Fixed::zero();5],
            field_engine: FieldEngine::new(),
            tasks: tasks_new(),
            active_task: None,
            neighbor_count: 0,
            last_tick: 0,
            tick_period: 1000,
            ticks_total: 0,
            field_updates: 0,
            topology_changes: 0,
            consensus_rounds: 0,
        }
    }

    /// Get module ID.
    pub fn id(&self) -> (id: ModuleId)
        ensures
            id == self.id,
    {
        self.id
    }

    /// Get module name.
    pub fn name(&self) -> (name: &'static str)
        ensures
            name == self.name,
    {
        self.name
    }

    /// Get current state.
    pub fn state(&self) -> (state: ModuleState)
        ensures
            state == self.state,
    {
        self.state
    }

    /// Start module operation: leaves the initial state for discovery.
    /// Fails with `InvalidArg`, changing nothing, in any other state.
    pub fn start(&mut self) -> (r: Result<(), Error>)
        ensures
            old(self).state == ModuleState::Init ==> r == Ok::<(), Error>(()) && *final(self) == (
            Module { state: ModuleState::Discovering, ..*old(self) }),
            old(self).state != ModuleState::Init ==> r == Err::<(), Error>(Error::InvalidArg)
                && *final(self) == *old(self),
    {
        match self.state {
            ModuleState::Init => {
                self.state = ModuleState::Discovering;
                Ok(())
            },
            _ => Err(Error::InvalidArg),
        }
    }

    /// Stop module operation: shuts down from any state.
    pub fn stop(&mut self) -> (r: Result<(), Error>)
        ensures
            r == Ok::<(), Error>(()),
            *final(self) == (Module { state: ModuleState::Shutdown, ..*old(self) }),
    {
        self.state = ModuleState::Shutdown;
        Ok(())
    }

    /// Add internal task: it gets the next id, is ready at once, and has
    /// never run. Fails with `NoMemory`, changing nothing, when eight tasks
    /// are registered already.
    pub fn add_task(&mut self, name: &'static str, handle: usize, priority: u8, period: TimeUs) -> (r:
        Result<TaskId, Error>)
        requires
            old(self).wf(),
        ensures
            final(self).wf(),
            old(self).spec_tasks().len() >= 8 ==> r == Err::<TaskId, Error>(Error::NoMemory)
                && *final(self) == *old(self),
            old(self).spec_tasks().len() < 8 ==> {
                &&& r == Ok::<TaskId, Error>(old(self).spec_tasks().len() as u8)
                &&& final(self).spec_tasks() == old(self).spec_tasks().push(
                    InternalTask {
                        id: old(self).spec_tasks().len() as u8,
                        name,
                        handle,
                        state: TaskState::Ready,
                        priority,
                        period,
                        next_run: 0,
                        run_count: 0,
                        total_runtime: 0,
                    },
                )
                &&& *final(self) == (Module { tasks: final(self).tasks, ..*old(self) })
            },
    {
        let len: usize = tasks_len(&self.tasks);
        if len >= MAX_TASKS_PER_MODULE {
            return Err(Error::NoMemory);
        }
        let id: TaskId = len as TaskId;
        let task = InternalTask {
            id,
            name,
            handle,
            state: TaskState::Ready,
            priority,
            period,
            next_run: 0,
            run_count: 0,
            total_runtime: 0,
        };
        match tasks_push(&mut self.tasks, task) {
            Ok(_) => Ok(id),
            Err(_) => Err(Error::NoMemory),
        }
    }

    /// Set task ready. Fails with `NotFound`, changing nothing, for an id
    /// that no task has.
    pub fn task_ready(&mut self, task_id: TaskId) -> (r: Result<(), Error>)
        requires
            old(self).wf(),
        ensures
            final(self).wf(),
            task_id >= old(self).spec_tasks().len() ==> r == Err::<(), Error>(Error::NotFound)
                && *final(self) == *old(self),
            task_id < old(self).spec_tasks().len() ==> {
                &&& r == Ok::<(), Error>(())
                &&& final(self).spec_tasks() == old(self).spec_tasks().update(
                    task_id as int,
                    InternalTask {
                        state: TaskState::Ready,
                        ..old(self).spec_tasks()[task_id as int]
                    },
                )
                &&& *final(self) == (Module { tasks: final(self).tasks, ..*old(self) })
            },
    {
        self.set_task_state(task_id, TaskState::Ready)
    }

    /// Block task. Fails with `NotFound`, changing nothing, for an id that
    /// no task has.
    pub fn task_block(&mut self, task_id: TaskId) -> (r: Result<(), Error>)
        requires
            old(self).wf(),
        ensures
            final(self).wf(),
            task_id >= old(self).spec_tasks().len() ==> r == Err::<(), Error>(Error::NotFound)
                && *final(self) == *old(self),
            task_id < old(self).spec_tasks().len() ==> {
                &&& r == Ok::<(), Error>(())
                &&& final(self).spec_tasks() == old(self).spec_tasks().update(
                    task_id as int,
                    InternalTask {
                        state: TaskState::Blocked,
                        ..old(self).spec_tasks()[task_id as int]
                    },
                )
                &&& *final(self) == (Module { tasks: final(self).tasks, ..*old(self) })
            },
    {
        self.set_task_state(task_id, TaskState::Blocked)
    }

    /// Select task based on gradients and priority.
    ///
    /// Under backpressure (the load gradient below about -0.2) nothing is
    /// selected. Otherwise the ready task with the lowest priority number is,
    /// and among equals the one registered first.
    pub fn select_task(&self) -> (choice: Option<TaskId>)
        requires
            self.wf(),
        ensures
            is_selection(self.spec_tasks(), self.gradients[0], choice),
    {
        let load_gradient = self.gradients[0];
        if load_gradient.to_bits() < BACKPRESSURE_BITS {
            return None;
        }
        let len: usize = tasks_len(&self.tasks);
        let mut best: Option<TaskId> = None;
        let mut best_priority: u8 = 0;
        let mut k: usize = 0;
        while k < len
            invariant
                k <= len,
                len == self.spec_tasks().len(),
                len <= 8,
                match best {
                    Some(b) => {
                        &&& b < k
                        &&& self.spec_tasks()[b as int].state == TaskState::Ready
                        &&& self.spec_tasks()[b as int].priority == best_priority
                        &&& forall|j: int|
                            0 <= j < k && (#[trigger] self.spec_tasks()[j]).state
                                == TaskState::Ready ==> best_priority
                                <= self.spec_tasks()[j].priority
                        &&& forall|j: int|
                            0 <= j < b && (#[trigger] self.spec_tasks()[j]).state
                                == TaskState::Ready ==> best_priority < self.spec_tasks()[j].priority
                    },
                    None => forall|j: int|
                        0 <= j < k ==> (#[trigger] self.spec_tasks()[j]).state != TaskState::Ready,
                },
            decreases len - k,
        {
            let task = tasks_get(&self.tasks, k);
            match task.state {
                TaskState::Ready => {
                    let better: bool = match best {
                        None => true,
                        Some(_) => task.priority < best_priority,
                    };
                    if better {
                        best = Some(k as TaskId);
                        best_priority = task.priority;
                    }
                },
                _ => {},
            }
            k += 1;
        }
        best
    }

    /// Account for one run of a task at `now`: the run is counted, a
    /// periodic task is re-armed and ready again, a one-shot task retires to
    /// idle. An id that no task has changes nothing.
    pub fn run_task(&mut self, task_id: TaskId, now: TimeUs)
        requires
            old(self).wf(),
        ensures
            final(self).wf(),
            task_id >= old(self).spec_tasks().len() ==> *final(self) == *old(self),
            task_id < old(self).spec_tasks().len() ==> {
                &&& final(self).spec_tasks() == old(self).spec_tasks().update(
                    task_id as int,
                    task_after_run(old(self).spec_tasks()[task_id as int], now),
                )
                &&& *final(self) == (Module {
                    tasks: final(self).tasks,
                    active_task: None,
                    ..*old(self)
                })
            },
    {
        let index: usize = task_id as usize;
        if index < tasks_len(&self.tasks) {
            let mut task = tasks_get(&self.tasks, index);
            task.run_count = task.run_count.wrapping_add(1);
            if task.period > 0 {
                task.next_run = now.wrapping_add(task.period);
                task.state = TaskState::Ready;
            } else {
                task.state = TaskState::Idle;
            }
            tasks_set(&mut self.tasks, index, task);
            self.active_task = None;
        }
    }

    /// Update module's coordination field: load, thermal and power take the
    /// given values, the rest stays.
    pub fn update_field(&mut self, load: Fixed, thermal: Fixed, power: Fixed)
        ensures
            final(self).my_field.components[0] == load,
            final(self).my_field.components[1] == thermal,
            final(self).my_field.components[2] == power,
            final(self).my_field.components[3] == old(self).my_field.components[3],
            final(self).my_field.components[4] == old(self).my_field.components[4],
            *final(self) == (Module { my_field: final(self).my_field, ..*old(self) }),
            final(self).my_field.timestamp == old(self).my_field.timestamp,
            final(self).my_field.source == old(self).my_field.source,
            final(self).my_field.sequence == old(self).my_field.sequence,
    {
        self.my_field.set(FieldComponent::Load, load);
        self.my_field.set(FieldComponent::Thermal, thermal);
        self.my_field.set(FieldComponent::Power, power);
    }

    /// Get current gradient for a component.
    pub fn get_gradient(&self, component: FieldComponent) -> (g: Fixed)
        ensures
            g == self.gradients[component.spec_index()],
    {
        self.gradients[component.index()]
    }

    /// Get all gradients.
    pub fn gradients(&self) -> (g: &[Fixed; 5])
        ensures
            *g == self.gradients,
    {
        &self.gradients
    }

    /// Propose mode change: counts one more consensus round and hands back
    /// the proposal, which needs a supermajority.
    pub fn propose_mode(&mut self, new_mode: u32, now: TimeUs) -> (p: Proposal)
        ensures
            p.kind == ProposalType::ModeChange,
            p.value == new_mode,
            p.threshold.bits == 0xAB85,
            p.now == now,
            *final(self) == (Module {
                consensus_rounds: counter_after(old(self).consensus_rounds, 1),
                ..*old(self)
            }),
    {
        self.consensus_rounds = self.consensus_rounds.wrapping_add(1);
        Proposal {
            kind: ProposalType::ModeChange,
            value: new_mode,
            threshold: Fixed::from_bits(0xAB85),
            now,
        }
    }

    /// Propose power limit: counts one more consensus round and hands back
    /// the proposal, which needs a simple majority.
    pub fn propose_power_limit(&mut self, power_mw: u32, now: TimeUs) -> (p: Proposal)
        ensures
            p.kind == ProposalType::PowerLimit,
            p.value == power_mw,
            p.threshold.bits == 0x8000,
            p.now == now,
            *final(self) == (Module {
                consensus_rounds: counter_after(old(self).consensus_rounds, 1),
                ..*old(self)
            }),
    {
        self.consensus_rounds = self.consensus_rounds.wrapping_add(1);
        Proposal {
            kind: ProposalType::PowerLimit,
            value: power_mw,
            threshold: Fixed::from_bits(0x8000),
            now,
        }
    }

    /// Get neighbor count: the live neighbors seen at the last tick.
    pub fn neighbor_count(&self) -> (n: usize)
        ensures
            n == self.neighbor_count,
    {
        self.neighbor_count
    }

    /// Get module status.
    pub fn status(&self) -> (s: ModuleStatus)
        ensures
            s.id == self.id,
            s.state == self.state,
            s.neighbor_count == self.neighbor_count as u32,
            s.load_gradient == self.gradients[0],
            s.thermal_gradient == self.gradients[1],
            s.active_ballots == 0,
            s.ticks_total == self.ticks_total,
    {
        ModuleStatus {
            id: self.id,
            state: self.state,
            neighbor_count: self.neighbor_count as u32,
            load_gradient: self.gradients[0],
            thermal_gradient: self.gradients[1],
            active_ballots: 0,
            ticks_total: self.ticks_total,
        }
    }

    /// Main tick function: one period of the coordination loop.
    ///
    /// `lost` is the number of neighbors dropped after this period's
    /// heartbeat step, `neighbors` the live neighbor set after that,
    /// `topology_changed` whether the topology's own maintenance reported a
    /// structural change, and `neighbor_count` the number of live neighbors
    /// after it. The report names the task whose callable is to be invoked
    /// and the state that was left, if any.
    pub fn tick(
        &mut self,
        region: &mut FieldRegion,
        now: TimeUs,
        lost: u32,
        neighbors: &[Neighbor],
        topology_changed: bool,
        neighbor_count: usize,
    ) -> (report: TickReport)
        requires
            old(self).wf(),
        ensures
            final(self).wf(),
            ticked(
                *old(self),
                *final(self),
                *old(region),
                *final(region),
                now,
                lost,
                neighbors@,
                topology_changed,
                neighbor_count,
                report,
            ),
    {
        self.last_tick = now;
        self.ticks_total = self.ticks_total.wrapping_add(1);
        self.neighbor_count = neighbor_count;
        self.topology_changes = self.topology_changes.wrapping_add(lost);
        self.neighbor_aggregate = self.field_engine.sample_neighbors(region, neighbors, now);
        self.gradients = self.field_engine.gradient_all(&self.my_field, &self.neighbor_aggregate);
        if topology_changed {
            self.topology_changes = self.topology_changes.wrapping_add(1);
        }
        let ran_task = self.select_task();
        match ran_task {
            Some(task_id) => {
                self.run_task(task_id, now);
            },
            None => {},
        }
        match self.field_engine.publish(region, self.id, &self.my_field, now) {
            Ok(_) => {},
            Err(e) => {
                return TickReport { ran_task, previous_state: None, result: Err(e) };
            },
        }
        self.field_updates = self.field_updates.wrapping_add(1);
        let previous = self.state;
        let next = state_after(previous, neighbor_count);
        self.state = next;
        let previous_state = if next != previous {
            Some(previous)
        } else {
            None
        };
        TickReport { ran_task, previous_state, result: Ok(()) }
    }

    fn set_task_state(&mut self, task_id: TaskId, state: TaskState) -> (r: Result<(), Error>)
        requires
            old(self).wf(),
        ensures
            final(self).wf(),
            task_id >= old(self).spec_tasks().len() ==> r == Err::<(), Error>(Error::NotFound)
                && *final(self) == *old(self),
            task_id < old(self).spec_tasks().len() ==> {
                &&& r == Ok::<(), Error>(())
                &&& final(self).spec_tasks() == old(self).spec_tasks().update(
                    task_id as int,
                    InternalTask { state, ..old(self).spec_tasks()[task_id as int] },
                )
                &&& *final(self) == (Module { tasks: final(self).tasks, ..*old(self) })
            },
    {
        let index: usize = task_id as usize;
        if index < tasks_len(&self.tasks) {
            let mut task = tasks_get(&self.tasks, index);
            task.state = state;
            tasks_set(&mut self.tasks, index, task);
            Ok(())
        } else {
            Err(Error::NotFound)
        }
    }
}

} // verus!
