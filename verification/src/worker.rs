//! The subscription worker as a state machine.
//!
//! A worker owns one connection. The program around the library performs
//! each action the worker asks for (connect, subscribe, receive, send) and
//! reports the outcome as the next event; the worker decides what follows.

use crate::config::{Auth, AuthModel};
use crate::filter::{subscription_for, SubscriptionFilter};
use crate::update::{extract, extracted, malformed, Category, UpdateEvent};
use vstd::prelude::*;

verus! {

/// Where a worker stands in its life.
#[derive(Clone, Copy, Debug, PartialEq, Eq)]
pub enum Phase {
    /// Not started yet.
    Created,
    /// Waiting for the connection to be established.
    Connecting,
    /// Connected; waiting for the subscription to be opened.
    Subscribing,
    /// Waiting for the next message of the stream.
    Receiving,
    /// Waiting for `value` to be accepted by the shared channel.
    Sending { value: u64 },
    /// Terminated; the sending handle is released.
    Finished,
}

/// What the outside world reports to a worker.
#[derive(Clone, Copy, Debug, PartialEq, Eq)]
pub enum WorkerEvent {
    /// The worker was spawned.
    Start,
    /// The connection is up.
    Connected,
    /// Transport, handshake or authentication failed.
    ConnectFailed,
    /// The stream is open.
    Subscribed,
    /// The subscription was refused.
    SubscribeFailed,
    /// The stream delivered a message.
    Message(UpdateEvent),
    /// The stream delivered a transport error in place of a message.
    StreamFailed,
    /// The stream ended.
    StreamClosed,
    /// The send came back; `delivered` is false when the receiver is gone.
    SendDone { delivered: bool },
}

/// Why a worker ended in failure.
#[derive(Clone, Copy, Debug, PartialEq, Eq)]
pub enum WorkerError {
    /// The setup phase failed: no connection, or no subscription.
    Connection,
}

/// What a worker asks the outside world to do next.
#[derive(Clone, Copy, Debug, PartialEq, Eq)]
pub enum WorkerAction {
    /// Connect to the worker's endpoint with its token.
    Connect,
    /// Open the stream with the worker's subscription filter.
    Subscribe,
    /// Wait for the next message of the stream.
    Receive,
    /// Send the value on the shared channel, waiting while it is full.
    Send(u64),
    /// Stop, release the sending handle, and report the result.
    Exit(Result<(), WorkerError>),
}

/// A line for the diagnostic stream.
#[derive(Clone, Copy, Debug, PartialEq, Eq)]
pub enum Diagnostic {
    /// An update outside the worker's category was seen.
    Observed(UpdateEvent),
    /// An update of the worker's category lacked its number and was skipped.
    Skipped,
    /// The stream failed; the worker stops reading.
    StreamError,
    /// The worker ended with an error.
    WorkerFailed(WorkerError),
}

/// The outcome of one step: the phase entered, an optional diagnostic to
/// print first, and the action to perform.
#[derive(Clone, Copy, Debug, PartialEq, Eq)]
pub struct Transition {
    pub phase: Phase,
    pub log: Option<Diagnostic>,
    pub action: WorkerAction,
}

/// What a worker does with a message while it is receiving.
pub open spec fn on_message(category: Category, update: UpdateEvent) -> Transition {
    if malformed(category, update) {
        Transition {
            phase: Phase::Receiving,
            log: Some(Diagnostic::Skipped),
            action: WorkerAction::Receive,
        }
    } else {
        match extracted(category, update) {
            Some(value) => Transition {
                phase: Phase::Sending { value },
                log: None,
                action: WorkerAction::Send(value),
            },
            None => Transition {
                phase: Phase::Receiving,
                log: if update is Empty {
                    None
                } else {
                    Some(Diagnostic::Observed(update))
                },
                action: WorkerAction::Receive,
            },
        }
    }
}

/// The transition relation of a worker of `category`: `None` where `event`
/// is not one that `phase` waits for.
pub open spec fn next(category: Category, phase: Phase, event: WorkerEvent) -> Option<Transition> {
    match (phase, event) {
        (Phase::Created, WorkerEvent::Start) => Some(
            Transition { phase: Phase::Connecting, log: None, action: WorkerAction::Connect },
        ),
        (Phase::Connecting, WorkerEvent::Connected) => Some(
            Transition { phase: Phase::Subscribing, log: None, action: WorkerAction::Subscribe },
        ),
        (Phase::Connecting, WorkerEvent::ConnectFailed) => Some(failed_setup()),
        (Phase::Subscribing, WorkerEvent::Subscribed) => Some(
            Transition { phase: Phase::Receiving, log: None, action: WorkerAction::Receive },
        ),
        (Phase::Subscribing, WorkerEvent::SubscribeFailed) => Some(failed_setup()),
        (Phase::Receiving, WorkerEvent::Message(update)) => Some(on_message(category, update)),
        (Phase::Receiving, WorkerEvent::StreamFailed) => Some(
            Transition {
                phase: Phase::Finished,
                log: Some(Diagnostic::StreamError),
                action: WorkerAction::Exit(Ok(())),
            },
        ),
        (Phase::Receiving, WorkerEvent::StreamClosed) => Some(
            Transition { phase: Phase::Finished, log: None, action: WorkerAction::Exit(Ok(())) },
        ),
        (Phase::Sending { value }, WorkerEvent::SendDone { delivered }) => Some(
            Transition { phase: Phase::Receiving, log: None, action: WorkerAction::Receive },
        ),
        _ => None,
    }
}

/// The end of a worker whose setup failed.
pub open spec fn failed_setup() -> Transition {
    Transition {
        phase: Phase::Finished,
        log: None,
        action: WorkerAction::Exit(Err(WorkerError::Connection)),
    }
}

/// Decides what a worker of `category` in `phase` does on `event`.
///
/// Returns `None` exactly where the event is not one the phase waits for;
/// the worker then stays as it is.
pub fn transition(category: Category, phase: Phase, event: WorkerEvent) -> (result: Option<
    Transition,
>)
    ensures
        result == next(category, phase, event),
{
    match phase {
        Phase::Created => match event {
            WorkerEvent::Start => Some(
                Transition { phase: Phase::Connecting, log: None, action: WorkerAction::Connect },
            ),
            _ => None,
        },
        Phase::Connecting => match event {
            WorkerEvent::Connected => Some(
                Transition {
                    phase: Phase::Subscribing,
                    log: None,
                    action: WorkerAction::Subscribe,
                },
            ),
            WorkerEvent::ConnectFailed => Some(setup_failure()),
            _ => None,
        },
        Phase::Subscribing => match event {
            WorkerEvent::Subscribed => Some(
                Transition { phase: Phase::Receiving, log: None, action: WorkerAction::Receive },
            ),
            WorkerEvent::SubscribeFailed => Some(setup_failure()),
            _ => None,
        },
        Phase::Receiving => match event {
            WorkerEvent::Message(update) => Some(handle_message(category, update)),
            WorkerEvent::StreamFailed => Some(
                Transition {
                    phase: Phase::Finished,
                    log: Some(Diagnostic::StreamError),
                    action: WorkerAction::Exit(Ok(())),
                },
            ),
            WorkerEvent::StreamClosed => Some(
                Transition {
                    phase: Phase::Finished,
                    log: None,
                    action: WorkerAction::Exit(Ok(())),
                },
            ),
            _ => None,
        },
        Phase::Sending { value: _ } => match event {
            WorkerEvent::SendDone { delivered: _ } => Some(
                Transition { phase: Phase::Receiving, log: None, action: WorkerAction::Receive },
            ),
            _ => None,
        },
        Phase::Finished => None,
    }
}

fn setup_failure() -> (result: Transition)
    ensures
        result == failed_setup(),
{
    Transition {
        phase: Phase::Finished,
        log: None,
        action: WorkerAction::Exit(Err(WorkerError::Connection)),
    }
}

/// Decides what a receiving worker does with one message of the stream.
pub fn handle_message(category: Category, update: UpdateEvent) -> (result: Transition)
    ensures
        result == on_message(category, update),
{
    match extract(category, &update) {
        Ok(Some(value)) => Transition {
            phase: Phase::Sending { value },
            log: None,
            action: WorkerAction::Send(value),
        },
        Ok(None) => {
            let log = match update {
                UpdateEvent::Empty => None,
                _ => Some(Diagnostic::Observed(update)),
            };
            Transition { phase: Phase::Receiving, log, action: WorkerAction::Receive }
        },
        Err(_) => Transition {
            phase: Phase::Receiving,
            log: Some(Diagnostic::Skipped),
            action: WorkerAction::Receive,
        },
    }
}

/// A subscription worker: one endpoint, one category, and the phase it
/// is in.
#[derive(Debug, PartialEq, Eq)]
pub struct Worker {
    id: usize,
    conn: Auth,
    category: Category,
    phase: Phase,
}

/// A worker as a mathematical value.
pub struct WorkerModel {
    /// The position of the worker's endpoint in the configured list.
    pub id: nat,
    pub conn: AuthModel,
    pub category: Category,
    pub phase: Phase,
}

impl WorkerModel {
    /// The worker after `event`: in the phase that the transition relation
    /// gives, or unchanged where the event is not awaited.
    pub open spec fn after(self, event: WorkerEvent) -> WorkerModel {
        match next(self.category, self.phase, event) {
            Some(step) => WorkerModel { phase: step.phase, ..self },
            None => self,
        }
    }
}

impl View for Worker {
    type V = WorkerModel;

    closed spec fn view(&self) -> WorkerModel {
        WorkerModel {
            id: self.id as nat,
            conn: self.conn@,
            category: self.category,
            phase: self.phase,
        }
    }
}

impl Worker {
    /// A worker for the endpoint at position `id`, not started yet.
    pub fn new(id: usize, conn: Auth, category: Category) -> (worker: Worker)
        ensures
            worker@ == (WorkerModel {
                id: id as nat,
                conn: conn@,
                category,
                phase: Phase::Created,
            }),
    {
        Worker { id, conn, category, phase: Phase::Created }
    }

    /// The position of the worker's endpoint in the configured list.
    pub fn id(&self) -> (id: usize)
        ensures
            id == self@.id,
    {
        self.id
    }

    /// The endpoint to connect to.
    pub fn endpoint(&self) -> (conn: &Auth)
        ensures
            conn@ == self@.conn,
    {
        &self.conn
    }

    pub fn category(&self) -> (category: Category)
        ensures
            category == self@.category,
    {
        self.category
    }

    pub fn phase(&self) -> (phase: Phase)
        ensures
            phase == self@.phase,
    {
        self.phase
    }

    pub fn is_finished(&self) -> (finished: bool)
        ensures
            finished == (self@.phase is Finished),
    {
        match self.phase {
            Phase::Finished => true,
            _ => false,
        }
    }

    /// The filter to subscribe with. It depends on the category alone, so
    /// it is the same whenever it is asked for.
    pub fn subscription(&self) -> (filter: SubscriptionFilter)
        ensures
            filter@ == subscription_for(self@.category),
    {
        SubscriptionFilter::for_category(self.category)
    }

    /// Takes `event` and answers with the step to perform.
    ///
    /// Where the event is one that the worker's phase waits for, the worker
    /// enters the next phase and the step says what to log and what to do.
    /// Otherwise the answer is `None` and the worker stays as it is.
    /// Endpoint, position and category never change.
    pub fn step(&mut self, event: WorkerEvent) -> (result: Option<Transition>)
        ensures
            result == next(old(self)@.category, old(self)@.phase, event),
            final(self)@ == old(self)@.after(event),
    {
        let result = transition(self.category, self.phase, event);
        match result {
            Some(step) => {
                self.phase = step.phase;
            },
            None => {},
        }
        result
    }
}

/// A worker forwards a value only for an update of its category, and then
/// the very number the update carries.
pub proof fn lemma_sends_only_extracted_values(
    category: Category,
    phase: Phase,
    event: WorkerEvent,
    value: u64,
)
    requires
        next(category, phase, event) matches Some(step) && step.action == WorkerAction::Send(
            value,
        ),
    ensures
        phase is Receiving,
        event matches WorkerEvent::Message(update) && crate::update::of_interest(category, update)
            && extracted(category, update) == Some(value),
{
}

/// An update outside the worker's category is never forwarded: the worker
/// goes on receiving, and the update shows in the log at most.
pub proof fn lemma_other_categories_are_not_forwarded(category: Category, update: UpdateEvent)
    requires
        !crate::update::of_interest(category, update),
    ensures
        next(category, Phase::Receiving, WorkerEvent::Message(update)) matches Some(step)
            && step.action == WorkerAction::Receive && step.phase == Phase::Receiving,
{
}

/// Whether the channel took the value or the receiver was gone, the worker
/// goes on receiving: a failed send is dropped without a trace.
pub proof fn lemma_send_failure_is_silent(category: Category, value: u64, delivered: bool)
    ensures
        next(category, Phase::Sending { value }, WorkerEvent::SendDone { delivered }) == Some(
            Transition { phase: Phase::Receiving, log: None, action: WorkerAction::Receive },
        ),
{
}

/// A worker stops exactly by an exit action; a finished worker takes no
/// event any more.
pub proof fn lemma_finished_is_final(category: Category, phase: Phase, event: WorkerEvent)
    ensures
        next(category, Phase::Finished, event) is None,
        next(category, phase, event) matches Some(step) ==> (step.phase is Finished
            <==> step.action is Exit),
{
}

} // verus!
