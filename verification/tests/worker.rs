use geyser_fanin::config::Auth;
use geyser_fanin::filter::SubscriptionFilter;
use geyser_fanin::update::{Category, TransactionEnvelope, UpdateEvent};
use geyser_fanin::worker::{
    handle_message, transition, Diagnostic, Phase, Transition, Worker, WorkerAction, WorkerError,
    WorkerEvent,
};

fn endpoint() -> Auth {
    Auth { end_point: "https://node.example:443".to_string(), token: "secret".to_string() }
}

fn all_events() -> Vec<WorkerEvent> {
    vec![
        WorkerEvent::Start,
        WorkerEvent::Connected,
        WorkerEvent::ConnectFailed,
        WorkerEvent::Subscribed,
        WorkerEvent::SubscribeFailed,
        WorkerEvent::Message(UpdateEvent::Other),
        WorkerEvent::StreamFailed,
        WorkerEvent::StreamClosed,
        WorkerEvent::SendDone { delivered: true },
        WorkerEvent::SendDone { delivered: false },
    ]
}

#[test]
fn worker_walks_through_a_healthy_life() {
    let mut worker = Worker::new(3, endpoint(), Category::Transaction);
    assert_eq!(worker.id(), 3);
    assert_eq!(worker.endpoint(), &endpoint());
    assert_eq!(worker.category(), Category::Transaction);
    assert_eq!(worker.phase(), Phase::Created);
    let step = worker.step(WorkerEvent::Start).unwrap();
    assert_eq!(step.action, WorkerAction::Connect);
    assert_eq!(worker.phase(), Phase::Connecting);
    let step = worker.step(WorkerEvent::Connected).unwrap();
    assert_eq!(step.action, WorkerAction::Subscribe);
    assert_eq!(worker.phase(), Phase::Subscribing);
    let step = worker.step(WorkerEvent::Subscribed).unwrap();
    assert_eq!(step.action, WorkerAction::Receive);
    let update = UpdateEvent::Transaction { envelope: Some(TransactionEnvelope { index: 42 }) };
    let step = worker.step(WorkerEvent::Message(update)).unwrap();
    assert_eq!(step.action, WorkerAction::Send(42));
    assert_eq!(step.log, None);
    assert_eq!(worker.phase(), Phase::Sending { value: 42 });
    let step = worker.step(WorkerEvent::SendDone { delivered: true }).unwrap();
    assert_eq!(step.action, WorkerAction::Receive);
    let step = worker.step(WorkerEvent::StreamClosed).unwrap();
    assert_eq!(step.action, WorkerAction::Exit(Ok(())));
    assert_eq!(step.log, None);
    assert!(worker.is_finished());
    assert_eq!(worker.endpoint(), &endpoint());
    assert_eq!(worker.id(), 3);
}

#[test]
fn connect_failure_ends_the_worker_with_an_error() {
    let mut worker = Worker::new(0, endpoint(), Category::Slot);
    worker.step(WorkerEvent::Start);
    let step = worker.step(WorkerEvent::ConnectFailed).unwrap();
    assert_eq!(step.action, WorkerAction::Exit(Err(WorkerError::Connection)));
    assert_eq!(step.phase, Phase::Finished);
    assert!(worker.is_finished());
}

#[test]
fn subscribe_failure_ends_the_worker_with_an_error() {
    let step = transition(Category::Slot, Phase::Subscribing, WorkerEvent::SubscribeFailed);
    assert_eq!(
        step,
        Some(Transition {
            phase: Phase::Finished,
            log: None,
            action: WorkerAction::Exit(Err(WorkerError::Connection)),
        })
    );
}

#[test]
fn stream_failure_is_logged_and_ends_the_loop() {
    let step = transition(Category::Slot, Phase::Receiving, WorkerEvent::StreamFailed);
    assert_eq!(
        step,
        Some(Transition {
            phase: Phase::Finished,
            log: Some(Diagnostic::StreamError),
            action: WorkerAction::Exit(Ok(())),
        })
    );
}

#[test]
fn failed_send_is_dropped_silently() {
    for delivered in [true, false] {
        let step = transition(
            Category::Transaction,
            Phase::Sending { value: 7 },
            WorkerEvent::SendDone { delivered },
        );
        assert_eq!(
            step,
            Some(Transition { phase: Phase::Receiving, log: None, action: WorkerAction::Receive })
        );
    }
}

#[test]
fn slot_worker_forwards_the_slot_number() {
    let step = handle_message(Category::Slot, UpdateEvent::Slot { slot: 101 });
    assert_eq!(step.action, WorkerAction::Send(101));
    assert_eq!(step.phase, Phase::Sending { value: 101 });
    assert_eq!(step.log, None);
}

#[test]
fn other_updates_are_observed_only() {
    for category in [Category::Slot, Category::Transaction] {
        let step = handle_message(category, UpdateEvent::Other);
        assert_eq!(
            step,
            Transition {
                phase: Phase::Receiving,
                log: Some(Diagnostic::Observed(UpdateEvent::Other)),
                action: WorkerAction::Receive,
            }
        );
    }
}

#[test]
fn empty_message_is_ignored() {
    let step = handle_message(Category::Transaction, UpdateEvent::Empty);
    assert_eq!(
        step,
        Transition { phase: Phase::Receiving, log: None, action: WorkerAction::Receive }
    );
}

#[test]
fn transaction_without_envelope_is_skipped() {
    let step = handle_message(Category::Transaction, UpdateEvent::Transaction { envelope: None });
    assert_eq!(
        step,
        Transition {
            phase: Phase::Receiving,
            log: Some(Diagnostic::Skipped),
            action: WorkerAction::Receive,
        }
    );
}

#[test]
fn events_that_are_not_awaited_change_nothing() {
    let awaited = |phase: Phase, event: WorkerEvent| match (phase, event) {
        (Phase::Created, WorkerEvent::Start) => true,
        (Phase::Connecting, WorkerEvent::Connected | WorkerEvent::ConnectFailed) => true,
        (Phase::Subscribing, WorkerEvent::Subscribed | WorkerEvent::SubscribeFailed) => true,
        (
            Phase::Receiving,
            WorkerEvent::Message(_) | WorkerEvent::StreamFailed | WorkerEvent::StreamClosed,
        ) => true,
        (Phase::Sending { .. }, WorkerEvent::SendDone { .. }) => true,
        _ => false,
    };
    let phases = [
        Phase::Created,
        Phase::Connecting,
        Phase::Subscribing,
        Phase::Receiving,
        Phase::Sending { value: 1 },
        Phase::Finished,
    ];
    for phase in phases {
        for event in all_events() {
            let step = transition(Category::Slot, phase, event);
            assert_eq!(step.is_some(), awaited(phase, event));
        }
    }
    let mut worker = Worker::new(1, endpoint(), Category::Slot);
    assert_eq!(worker.step(WorkerEvent::StreamClosed), None);
    assert_eq!(worker.phase(), Phase::Created);
}

#[test]
fn finished_worker_takes_no_event() {
    for event in all_events() {
        assert_eq!(transition(Category::Transaction, Phase::Finished, event), None);
    }
}

#[test]
fn worker_subscribes_with_the_filter_of_its_category() {
    let worker = Worker::new(0, endpoint(), Category::Transaction);
    assert_eq!(worker.subscription(), SubscriptionFilter::for_category(Category::Transaction));
    let worker = Worker::new(0, endpoint(), Category::Slot);
    assert_eq!(worker.subscription(), SubscriptionFilter::for_slots());
}
