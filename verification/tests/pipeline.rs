use geyser_fanin::fan_in::LogLine;
use geyser_fanin::script::{Script, StreamItem};
use geyser_fanin::simulation::{simulate, Report, Turn};
use geyser_fanin::update::{Category, TransactionEnvelope, UpdateEvent};
use geyser_fanin::worker::{Diagnostic, WorkerError};

fn slot(slot: u64) -> StreamItem {
    StreamItem::Update(UpdateEvent::Slot { slot })
}

fn transaction(index: u64) -> StreamItem {
    StreamItem::Update(UpdateEvent::Transaction { envelope: Some(TransactionEnvelope { index }) })
}

fn healthy(items: Vec<StreamItem>) -> Script {
    Script { connect_ok: true, subscribe_ok: true, items }
}

fn values_from(report: &Report, worker: usize) -> Vec<u64> {
    assert_eq!(report.origins.len(), report.emitted.len());
    let mut values = Vec::new();
    for (k, value) in report.emitted.iter().enumerate() {
        if report.origins[k] == worker {
            values.push(*value);
        }
    }
    values
}

fn from_worker(report: &Report, worker: usize) -> Vec<Diagnostic> {
    let mut lines = Vec::new();
    for line in &report.log {
        if line.worker == worker {
            lines.push(line.diagnostic);
        }
    }
    lines
}

#[test]
fn slot_mode_emits_three_lines_in_order() {
    let scripts = vec![healthy(vec![slot(101), slot(102), slot(103)])];
    let report = simulate(Category::Slot, &scripts, 100, &Vec::new());
    assert_eq!(report.emitted, vec![101, 102, 103]);
    assert_eq!(report.origins, vec![0, 0, 0]);
    assert_eq!(
        report.lines,
        vec![
            "Transactions: 101".to_string(),
            "Transactions: 102".to_string(),
            "Transactions: 103".to_string(),
        ]
    );
    assert!(report.log.is_empty());
    assert_eq!(report.exits, vec![Ok(())]);
    assert!(report.closed);
}

#[test]
fn transaction_mode_forwards_indices_and_logs_the_rest() {
    let scripts = vec![healthy(vec![
        transaction(5),
        StreamItem::Update(UpdateEvent::Other),
        transaction(7),
    ])];
    let report = simulate(Category::Transaction, &scripts, 100, &Vec::new());
    assert_eq!(report.emitted, vec![5, 7]);
    assert_eq!(
        report.lines,
        vec!["Transactions: 5".to_string(), "Transactions: 7".to_string()]
    );
    assert_eq!(
        report.log,
        vec![LogLine { worker: 0, diagnostic: Diagnostic::Observed(UpdateEvent::Other) }]
    );
    assert_eq!(report.exits, vec![Ok(())]);
    assert!(report.closed);
}

#[test]
fn no_endpoints_no_output() {
    let report = simulate(Category::Transaction, &Vec::new(), 100, &Vec::new());
    assert!(report.emitted.is_empty());
    assert!(report.origins.is_empty());
    assert!(report.lines.is_empty());
    assert!(report.log.is_empty());
    assert!(report.exits.is_empty());
    assert_eq!(report.peak_pending, 0);
    assert!(report.closed);
}

#[test]
fn one_worker_per_script_terminates() {
    let mut scripts = Vec::new();
    for k in 0..7u64 {
        scripts.push(healthy(vec![slot(k)]));
    }
    let report = simulate(Category::Slot, &scripts, 3, &Vec::new());
    assert_eq!(report.exits.len(), 7);
    assert_eq!(report.emitted.len(), 7);
    assert!(report.closed);
}

#[test]
fn slot_updates_are_only_observed_by_a_transaction_worker() {
    let scripts = vec![healthy(vec![slot(9), transaction(4)])];
    let report = simulate(Category::Transaction, &scripts, 100, &Vec::new());
    assert_eq!(report.emitted, vec![4]);
    assert_eq!(
        from_worker(&report, 0),
        vec![Diagnostic::Observed(UpdateEvent::Slot { slot: 9 })]
    );
}

#[test]
fn transaction_updates_are_only_observed_by_a_slot_worker() {
    let scripts = vec![healthy(vec![transaction(4), slot(9)])];
    let report = simulate(Category::Slot, &scripts, 100, &Vec::new());
    assert_eq!(report.emitted, vec![9]);
    assert_eq!(
        from_worker(&report, 0),
        vec![Diagnostic::Observed(UpdateEvent::Transaction {
            envelope: Some(TransactionEnvelope { index: 4 })
        })]
    );
}

#[test]
fn empty_messages_leave_no_trace() {
    let scripts = vec![healthy(vec![StreamItem::Update(UpdateEvent::Empty), slot(1)])];
    let report = simulate(Category::Slot, &scripts, 100, &Vec::new());
    assert_eq!(report.emitted, vec![1]);
    assert!(report.log.is_empty());
}

#[test]
fn extreme_values_pass_unchanged() {
    let scripts = vec![healthy(vec![slot(0), slot(u64::MAX), slot(1)])];
    let report = simulate(Category::Slot, &scripts, 2, &Vec::new());
    assert_eq!(report.emitted, vec![0, u64::MAX, 1]);
    assert_eq!(report.lines[1], "Transactions: 18446744073709551615".to_string());
}

#[test]
fn missing_envelope_is_skipped_and_logged() {
    let scripts = vec![healthy(vec![
        transaction(1),
        StreamItem::Update(UpdateEvent::Transaction { envelope: None }),
        transaction(2),
    ])];
    let report = simulate(Category::Transaction, &scripts, 100, &Vec::new());
    assert_eq!(report.emitted, vec![1, 2]);
    assert_eq!(from_worker(&report, 0), vec![Diagnostic::Skipped]);
    assert_eq!(report.exits, vec![Ok(())]);
}

#[test]
fn stream_failure_ends_the_worker_without_retry() {
    let scripts = vec![healthy(vec![slot(1), StreamItem::Failure, slot(2), slot(3)])];
    let report = simulate(Category::Slot, &scripts, 100, &Vec::new());
    assert_eq!(report.emitted, vec![1]);
    assert_eq!(from_worker(&report, 0), vec![Diagnostic::StreamError]);
    assert_eq!(report.exits, vec![Ok(())]);
    assert!(report.closed);
}

#[test]
fn connection_failure_is_reported_and_nothing_is_sent() {
    let scripts = vec![Script { connect_ok: false, subscribe_ok: true, items: vec![slot(1)] }];
    let report = simulate(Category::Slot, &scripts, 100, &Vec::new());
    assert!(report.emitted.is_empty());
    assert_eq!(report.exits, vec![Err(WorkerError::Connection)]);
    assert_eq!(
        report.log,
        vec![LogLine { worker: 0, diagnostic: Diagnostic::WorkerFailed(WorkerError::Connection) }]
    );
    assert!(report.closed);
}

#[test]
fn refused_subscription_is_reported_and_nothing_is_sent() {
    let scripts = vec![Script { connect_ok: true, subscribe_ok: false, items: vec![slot(1)] }];
    let report = simulate(Category::Slot, &scripts, 100, &Vec::new());
    assert!(report.emitted.is_empty());
    assert_eq!(report.exits, vec![Err(WorkerError::Connection)]);
    assert_eq!(
        from_worker(&report, 0),
        vec![Diagnostic::WorkerFailed(WorkerError::Connection)]
    );
}

#[test]
fn failing_endpoint_does_not_disturb_a_healthy_one() {
    let healthy_items = vec![transaction(10), transaction(11), transaction(12)];
    let alone = simulate(
        Category::Transaction,
        &vec![healthy(healthy_items.clone())],
        100,
        &Vec::new(),
    );
    let refusing = Script { connect_ok: false, subscribe_ok: true, items: Vec::new() };
    let breaking = healthy(vec![transaction(90), StreamItem::Failure, transaction(91)]);
    let scripts = vec![refusing, healthy(healthy_items), breaking];
    let schedule = vec![
        Turn::Worker(2),
        Turn::Worker(0),
        Turn::Worker(1),
        Turn::Worker(2),
        Turn::Worker(0),
        Turn::Worker(1),
        Turn::Worker(2),
        Turn::Worker(1),
        Turn::Aggregator,
        Turn::Worker(2),
        Turn::Worker(1),
        Turn::Worker(2),
        Turn::Worker(2),
    ];
    let together = simulate(Category::Transaction, &scripts, 100, &schedule);
    assert_eq!(values_from(&together, 1), alone.emitted);
    assert_eq!(values_from(&together, 1), vec![10, 11, 12]);
    assert!(values_from(&together, 0).is_empty());
    assert_eq!(values_from(&together, 2), vec![90]);
    assert_eq!(together.emitted.len(), 4);
    assert_eq!(
        together.exits,
        vec![Err(WorkerError::Connection), Ok(()), Ok(())]
    );
    assert_eq!(
        from_worker(&together, 0),
        vec![Diagnostic::WorkerFailed(WorkerError::Connection)]
    );
    assert!(from_worker(&together, 1).is_empty());
    assert_eq!(from_worker(&together, 2), vec![Diagnostic::StreamError]);
    assert!(together.closed);
}

#[test]
fn channel_never_exceeds_its_capacity() {
    let mut first = Vec::new();
    let mut second = Vec::new();
    for k in 0..250u64 {
        first.push(slot(k));
        second.push(slot(1000 + k));
    }
    let scripts = vec![healthy(first), healthy(second)];
    let mut schedule = Vec::new();
    for _ in 0..400 {
        schedule.push(Turn::Worker(0));
        schedule.push(Turn::Worker(1));
    }
    let report = simulate(Category::Slot, &scripts, 100, &schedule);
    assert_eq!(report.peak_pending, 100);
    assert_eq!(report.emitted.len(), 500);
    assert_eq!(values_from(&report, 0), (0..250u64).collect::<Vec<u64>>());
    assert_eq!(values_from(&report, 1), (1000..1250u64).collect::<Vec<u64>>());
    assert!(report.closed);
}

#[test]
fn capacity_of_one_still_delivers_everything() {
    let scripts = vec![healthy(vec![slot(1), slot(2), slot(3), slot(4)])];
    let schedule = vec![Turn::Worker(0); 20];
    let report = simulate(Category::Slot, &scripts, 1, &schedule);
    assert_eq!(report.emitted, vec![1, 2, 3, 4]);
    assert_eq!(report.peak_pending, 1);
}

#[test]
fn order_of_arrival_follows_the_schedule() {
    let scripts = vec![healthy(vec![slot(1), slot(2)]), healthy(vec![slot(7), slot(8)])];
    let mut second_first = Vec::new();
    for _ in 0..10 {
        second_first.push(Turn::Worker(1));
    }
    let report = simulate(Category::Slot, &scripts, 100, &second_first);
    assert_eq!(report.emitted, vec![7, 8, 1, 2]);
    let mut alternating = Vec::new();
    for _ in 0..10 {
        alternating.push(Turn::Worker(0));
        alternating.push(Turn::Worker(1));
    }
    let report = simulate(Category::Slot, &scripts, 100, &alternating);
    assert_eq!(report.emitted, vec![1, 7, 2, 8]);
    assert_eq!(report.origins, vec![0, 1, 0, 1]);
}

#[test]
fn turns_of_unknown_workers_are_ignored() {
    let scripts = vec![healthy(vec![slot(5)])];
    let schedule = vec![Turn::Worker(3), Turn::Aggregator, Turn::Worker(usize::MAX)];
    let report = simulate(Category::Slot, &scripts, 100, &schedule);
    assert_eq!(report.emitted, vec![5]);
}

#[test]
fn duplicate_endpoints_are_connected_independently() {
    let scripts = vec![healthy(vec![slot(3)]), healthy(vec![slot(3)])];
    let report = simulate(Category::Slot, &scripts, 100, &Vec::new());
    assert_eq!(report.emitted, vec![3, 3]);
    assert_eq!(values_from(&report, 0), vec![3]);
    assert_eq!(values_from(&report, 1), vec![3]);
    assert_eq!(report.exits, vec![Ok(()), Ok(())]);
}
