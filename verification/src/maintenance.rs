//! The V1 maintenance scheduler: every task starts due; a tick fires the
//! local tasks that are due and schedules each one cadence later, and logs
//! the stubbed future tasks as skipped.
use vstd::prelude::*;

use crate::text::owned;
use crate::v1::{
    cadence_millis, cadence_ms, disposition_status, locally_implemented, maintenance_disposition,
    maintenance_implementation, status_for_disposition, task_disposition, MaintenanceImplementation,
    MaintenanceTask, V1ProtocolStatus,
};

verus! {

/// The maintenance tasks in catalogue order.
pub open spec fn maintenance_tasks() -> Seq<MaintenanceTask> {
    seq![
        MaintenanceTask::CallbackSecretRetention,
        MaintenanceTask::CoordinationEventRetention,
        MaintenanceTask::FillIdempotencyRetention,
        MaintenanceTask::ProviderSettlementExpiry,
        MaintenanceTask::PurchaseExpiry,
        MaintenanceTask::MarketSnapshot,
        MaintenanceTask::MarketSnapshotRetention,
        MaintenanceTask::WorkerLivenessCheck,
        MaintenanceTask::Sweep,
        MaintenanceTask::StaleOffers,
        MaintenanceTask::ChronicleRetention,
        MaintenanceTask::ObservationRetention,
    ]
}

/// The maintenance tasks in catalogue order.
pub fn all_maintenance_tasks() -> (r: Vec<MaintenanceTask>)
    ensures
        r@ == maintenance_tasks(),
{
    let r = vec![
        MaintenanceTask::CallbackSecretRetention,
        MaintenanceTask::CoordinationEventRetention,
        MaintenanceTask::FillIdempotencyRetention,
        MaintenanceTask::ProviderSettlementExpiry,
        MaintenanceTask::PurchaseExpiry,
        MaintenanceTask::MarketSnapshot,
        MaintenanceTask::MarketSnapshotRetention,
        MaintenanceTask::WorkerLivenessCheck,
        MaintenanceTask::Sweep,
        MaintenanceTask::StaleOffers,
        MaintenanceTask::ChronicleRetention,
        MaintenanceTask::ObservationRetention,
    ];
    assert(r@ =~= maintenance_tasks());
    r
}

/// One task in the schedule: its cadence hint, when it is next due and how
/// the node implements it.
pub struct V1ScheduledMaintenance {
    pub task: MaintenanceTask,
    pub cadence: String,
    pub next_due_ms: u64,
    pub implementation: MaintenanceImplementation,
}

/// What a tick did with one task.
pub struct MaintenanceDispatch {
    pub task: MaintenanceTask,
    pub status: V1ProtocolStatus,
    pub detail: String,
}

pub struct V1SchedulerTickReport {
    pub now_ms: u64,
    pub fired: Vec<MaintenanceDispatch>,
    pub skipped_future: Vec<MaintenanceDispatch>,
    pub next_schedule: Vec<V1ScheduledMaintenance>,
}

pub struct V1MaintenanceScheduler {
    pub schedule: Vec<V1ScheduledMaintenance>,
}

/// A scheduled task as plain values.
pub struct ScheduledView {
    pub task: MaintenanceTask,
    pub cadence: Seq<char>,
    pub next_due_ms: u64,
    pub implementation: MaintenanceImplementation,
}

/// A dispatch as plain values.
pub struct DispatchView {
    pub task: MaintenanceTask,
    pub status: V1ProtocolStatus,
    pub detail: Seq<char>,
}

pub open spec fn scheduled_view(e: V1ScheduledMaintenance) -> ScheduledView {
    ScheduledView { task: e.task, cadence: e.cadence@, next_due_ms: e.next_due_ms, implementation: e.implementation }
}

pub open spec fn schedule_view(s: Seq<V1ScheduledMaintenance>) -> Seq<ScheduledView> {
    s.map_values(|e: V1ScheduledMaintenance| scheduled_view(e))
}

pub open spec fn dispatch_view(d: MaintenanceDispatch) -> DispatchView {
    DispatchView { task: d.task, status: d.status, detail: d.detail@ }
}

pub open spec fn dispatches_view(s: Seq<MaintenanceDispatch>) -> Seq<DispatchView> {
    s.map_values(|d: MaintenanceDispatch| dispatch_view(d))
}

/// How a task is dispatched: a local task with the status its disposition
/// gives and a note of its cadence; a stubbed one deferred and skipped.
pub open spec fn maintenance_dispatch(task: MaintenanceTask, cadence: Seq<char>) -> DispatchView {
    if locally_implemented(task) {
        DispatchView {
            task,
            status: disposition_status(task_disposition(task)),
            detail: "local maintenance task fired with "@ + cadence + " cadence"@,
        }
    } else {
        DispatchView {
            task,
            status: V1ProtocolStatus::Deferred,
            detail: "stubbed future maintenance task; logged and skipped in V1"@,
        }
    }
}

/// A local task whose due time has come.
pub open spec fn fires(e: ScheduledView, now_ms: u64) -> bool {
    e.implementation == MaintenanceImplementation::Local && e.next_due_ms <= now_ms
}

/// The dispatches of the tasks that fire at `now_ms`, in schedule order.
pub open spec fn fired_at(s: Seq<ScheduledView>, now_ms: u64) -> Seq<DispatchView>
    decreases s.len(),
{
    if s.len() == 0 {
        Seq::empty()
    } else {
        let rest = fired_at(s.drop_last(), now_ms);
        if fires(s.last(), now_ms) {
            rest.push(maintenance_dispatch(s.last().task, s.last().cadence))
        } else {
            rest
        }
    }
}

/// The dispatches of the stubbed tasks, in schedule order.
pub open spec fn skipped_in(s: Seq<ScheduledView>) -> Seq<DispatchView>
    decreases s.len(),
{
    if s.len() == 0 {
        Seq::empty()
    } else {
        let rest = skipped_in(s.drop_last());
        if s.last().implementation == MaintenanceImplementation::StubbedFuture {
            rest.push(maintenance_dispatch(s.last().task, s.last().cadence))
        } else {
            rest
        }
    }
}

/// A task after a tick at `now_ms`: a task that fired is next due one cadence
/// later; any other keeps its due time.
pub open spec fn after_tick(e: ScheduledView, now_ms: u64) -> ScheduledView {
    if fires(e, now_ms) {
        ScheduledView { next_due_ms: (now_ms + cadence_millis(e.cadence)) as u64, ..e }
    } else {
        e
    }
}

/// `task` with cadence hint `cadence`, due at `now_ms`, implemented as the
/// node implements it.
pub open spec fn initially_due(task: MaintenanceTask, cadence: Seq<char>, now_ms: u64) -> ScheduledView {
    ScheduledView {
        task,
        cadence,
        next_due_ms: now_ms,
        implementation: if locally_implemented(task) {
            MaintenanceImplementation::Local
        } else {
            MaintenanceImplementation::StubbedFuture
        },
    }
}

/// The longest cadence a task can have.
pub open spec fn max_cadence_ms() -> u64 {
    86_400_000
}

impl V1MaintenanceScheduler {
    /// A schedule with every task due at `now_ms`, task `i` of the catalogue
    /// with cadence hint `cadences[i]`.
    pub fn due_now(now_ms: u64, cadences: &Vec<String>) -> (r: Self)
        requires
            cadences@.len() == maintenance_tasks().len(),
        ensures
            schedule_view(r.schedule@).len() == maintenance_tasks().len(),
            forall|i: int|
                0 <= i < maintenance_tasks().len() ==> #[trigger] schedule_view(r.schedule@)[i] == initially_due(maintenance_tasks()[i], cadences@[i]@, now_ms),
    {
        let tasks = all_maintenance_tasks();
        let mut schedule: Vec<V1ScheduledMaintenance> = Vec::new();
        let mut i: usize = 0;
        while i < tasks.len()
            invariant
                tasks@ == maintenance_tasks(),
                cadences@.len() == tasks@.len(),
                i <= tasks.len(),
                schedule@.len() == i,
                forall|k: int|
                    0 <= k < i ==> #[trigger] scheduled_view(schedule@[k]) == initially_due(maintenance_tasks()[k], cadences@[k]@, now_ms),
            decreases tasks.len() - i,
        {
            let task = tasks[i];
            schedule.push(
                V1ScheduledMaintenance {
                    task,
                    cadence: cadences[i].clone(),
                    next_due_ms: now_ms,
                    implementation: maintenance_implementation(task),
                },
            );
            i = i + 1;
        }
        V1MaintenanceScheduler { schedule }
    }

    /// Runs one tick at `now_ms`: fires the due local tasks, each then next
    /// due one cadence later, and logs every stubbed task as skipped.
    pub fn tick(self, now_ms: u64) -> (r: V1SchedulerTickReport)
        requires
            now_ms + max_cadence_ms() <= u64::MAX,
        ensures
            r.now_ms == now_ms,
            dispatches_view(r.fired@) == fired_at(schedule_view(self.schedule@), now_ms),
            dispatches_view(r.skipped_future@) == skipped_in(schedule_view(self.schedule@)),
            schedule_view(r.next_schedule@) == schedule_view(self.schedule@).map_values(
                |e: ScheduledView| after_tick(e, now_ms),
            ),
    {
        let ghost sv = schedule_view(self.schedule@);
        let mut fired: Vec<MaintenanceDispatch> = Vec::new();
        let mut skipped: Vec<MaintenanceDispatch> = Vec::new();
        let mut next: Vec<V1ScheduledMaintenance> = Vec::new();
        let mut i: usize = 0;
        while i < self.schedule.len()
            invariant
                sv == schedule_view(self.schedule@),
                now_ms + max_cadence_ms() <= u64::MAX,
                i <= self.schedule.len(),
                dispatches_view(fired@) == fired_at(sv.take(i as int), now_ms),
                dispatches_view(skipped@) == skipped_in(sv.take(i as int)),
                schedule_view(next@) == sv.take(i as int).map_values(|e: ScheduledView| after_tick(e, now_ms)),
            decreases self.schedule.len() - i,
        {
            let e = &self.schedule[i];
            let ghost ev = sv[i as int];
            assert(sv.take(i + 1).drop_last() =~= sv.take(i as int));
            assert(sv.take(i + 1).last() == ev);
            let local = match e.implementation {
                MaintenanceImplementation::Local => true,
                MaintenanceImplementation::StubbedFuture => false,
            };
            let due = local && e.next_due_ms <= now_ms;
            if due {
                let d = dispatch_task(e.task, e.cadence.as_str());
                let ghost before = fired@;
                fired.push(d);
                assert(dispatches_view(fired@) =~= dispatches_view(before).push(dispatch_view(d)));
            }
            if !local {
                let d = dispatch_task(e.task, e.cadence.as_str());
                let ghost before = skipped@;
                skipped.push(d);
                assert(dispatches_view(skipped@) =~= dispatches_view(before).push(dispatch_view(d)));
            }
            let next_due = if due {
                now_ms + cadence_ms(e.cadence.as_str())
            } else {
                e.next_due_ms
            };
            let entry = V1ScheduledMaintenance {
                task: e.task,
                cadence: e.cadence.clone(),
                next_due_ms: next_due,
                implementation: e.implementation,
            };
            let ghost before_next = next@;
            next.push(entry);
            assert(schedule_view(next@) =~= schedule_view(before_next).push(scheduled_view(entry)));
            assert(sv.take(i + 1).map_values(|e: ScheduledView| after_tick(e, now_ms)) =~= sv.take(
                i as int,
            ).map_values(|e: ScheduledView| after_tick(e, now_ms)).push(after_tick(ev, now_ms)));
            i = i + 1;
        }
        assert(sv.take(sv.len() as int) =~= sv);
        V1SchedulerTickReport { now_ms, fired, skipped_future: skipped, next_schedule: next }
    }
}

/// How `task` with cadence hint `cadence` is dispatched.
pub fn dispatch_task(task: MaintenanceTask, cadence: &str) -> (r: MaintenanceDispatch)
    ensures
        dispatch_view(r) == maintenance_dispatch(task, cadence@),
{
    match maintenance_implementation(task) {
        MaintenanceImplementation::Local => {
            let mut detail = owned("local maintenance task fired with ");
            detail.append(cadence);
            detail.append(" cadence");
            MaintenanceDispatch { task, status: status_for_disposition(maintenance_disposition(task)), detail }
        },
        MaintenanceImplementation::StubbedFuture => MaintenanceDispatch {
            task,
            status: V1ProtocolStatus::Deferred,
            detail: owned("stubbed future maintenance task; logged and skipped in V1"),
        },
    }
}

/// How many of the dispatches are ready.
pub open spec fn ready_count(s: Seq<DispatchView>) -> nat
    decreases s.len(),
{
    if s.len() == 0 {
        0
    } else {
        ready_count(s.drop_last()) + if s.last().status == V1ProtocolStatus::Ready {
            1nat
        } else {
            0nat
        }
    }
}

impl V1SchedulerTickReport {
    /// How many fired tasks ran as ready local tasks.
    pub fn local_count(&self) -> (r: usize)
        ensures
            r == ready_count(dispatches_view(self.fired@)),
    {
        let ghost fv = dispatches_view(self.fired@);
        let mut n: usize = 0;
        let mut i: usize = 0;
        while i < self.fired.len()
            invariant
                fv == dispatches_view(self.fired@),
                i <= self.fired.len(),
                n == ready_count(fv.take(i as int)),
                n <= i,
            decreases self.fired.len() - i,
        {
            assert(fv.take(i + 1).drop_last() =~= fv.take(i as int));
            let ready = match self.fired[i].status {
                V1ProtocolStatus::Ready => true,
                _ => false,
            };
            if ready {
                n = n + 1;
            }
            i = i + 1;
        }
        assert(fv.take(fv.len() as int) =~= fv);
        n
    }

    /// How many stubbed tasks were skipped.
    pub fn stubbed_count(&self) -> (r: usize)
        ensures
            r == self.skipped_future@.len(),
    {
        self.skipped_future.len()
    }
}

/// Law: a task that fires is not due again within its cadence, and the
/// stubbed tasks are skipped at every tick. When every local task has a known
/// (nonzero) cadence, a second tick at the same time fires nothing and skips
/// the same tasks as the first.
pub proof fn fired_tasks_wait_one_cadence(s: Seq<ScheduledView>, now_ms: u64)
    requires
        now_ms + max_cadence_ms() <= u64::MAX,
        forall|i: int|
            0 <= i < s.len() && (#[trigger] s[i]).implementation == MaintenanceImplementation::Local
                ==> cadence_millis(s[i].cadence) > 0,
    ensures
        fired_at(s.map_values(|e: ScheduledView| after_tick(e, now_ms)), now_ms) == Seq::<DispatchView>::empty(),
        skipped_in(s.map_values(|e: ScheduledView| after_tick(e, now_ms))) == skipped_in(s),
    decreases s.len(),
{
    let t = s.map_values(|e: ScheduledView| after_tick(e, now_ms));
    if s.len() > 0 {
        let p = s.drop_last();
        assert(t.drop_last() =~= p.map_values(|e: ScheduledView| after_tick(e, now_ms)));
        assert(s.last() == s[s.len() - 1]);
        fired_tasks_wait_one_cadence(p, now_ms);
    }
}

} // verus!
