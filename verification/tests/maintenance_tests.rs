use wire_substrate::maintenance::{all_maintenance_tasks, V1MaintenanceScheduler};
use wire_substrate::v1::{MaintenanceTask, V1ProtocolStatus};

fn cadences() -> Vec<String> {
    ["every_5_minutes", "hourly", "daily"]
        .iter()
        .cycle()
        .take(all_maintenance_tasks().len())
        .map(|c| c.to_string())
        .collect()
}

#[test]
fn scheduler_tick_fires_local_tasks_and_skips_future_stubs() {
    let report = V1MaintenanceScheduler::due_now(1_000, &cadences()).tick(1_000);

    assert_eq!(report.local_count(), 8);
    assert_eq!(report.stubbed_count(), 4);
    assert!(report
        .fired
        .iter()
        .any(|dispatch| dispatch.task == MaintenanceTask::WorkerLivenessCheck));
    assert!(report
        .skipped_future
        .iter()
        .any(|dispatch| dispatch.task == MaintenanceTask::ChronicleRetention));
}

#[test]
fn fired_tasks_are_next_due_one_cadence_later() {
    let report = V1MaintenanceScheduler::due_now(1_000, &cadences()).tick(1_000);
    let first = &report.next_schedule[0];
    assert_eq!(first.task, MaintenanceTask::CallbackSecretRetention);
    assert_eq!(first.next_due_ms, 1_000 + 300_000);
    assert_eq!(report.next_schedule[1].next_due_ms, 1_000 + 3_600_000);
    assert_eq!(report.next_schedule[2].next_due_ms, 1_000 + 86_400_000);
    let sweep = report.next_schedule.iter().find(|e| e.task == MaintenanceTask::Sweep).unwrap();
    assert_eq!(sweep.next_due_ms, 1_000);
    assert_eq!(report.fired[1].detail, "local maintenance task fired with hourly cadence");
    assert_eq!(report.fired[0].status, V1ProtocolStatus::Ready);
    assert_eq!(
        report.skipped_future[0].detail,
        "stubbed future maintenance task; logged and skipped in V1"
    );
    assert_eq!(report.skipped_future[0].status, V1ProtocolStatus::Deferred);
}

#[test]
fn a_second_tick_at_the_same_time_fires_nothing() {
    let first = V1MaintenanceScheduler::due_now(1_000, &cadences()).tick(1_000);
    let second = V1MaintenanceScheduler { schedule: first.next_schedule }.tick(1_000);
    assert!(second.fired.is_empty());
    assert_eq!(second.stubbed_count(), 4);
    let later = V1MaintenanceScheduler { schedule: second.next_schedule }.tick(1_000 + 300_000);
    assert_eq!(later.local_count(), 3);
}

#[test]
fn tasks_come_in_catalogue_order() {
    let tasks = all_maintenance_tasks();
    assert_eq!(tasks.len(), 12);
    assert_eq!(tasks[0], MaintenanceTask::CallbackSecretRetention);
    assert_eq!(tasks[11], MaintenanceTask::ObservationRetention);
}
