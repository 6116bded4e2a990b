//! The whole pipeline run against scripted endpoints, in one thread.
//!
//! The simulation spawns one worker per script, lets workers and aggregator
//! take turns as a schedule says, and then runs everything to completion.
//! It uses the worker's own decisions and the channel's own answers, so what
//! it reports is what the pipeline does under that interleaving. Whatever
//! the schedule, every worker's values arrive complete and in order.

use crate::aggregator::{aggregate, output_lines, AggregatorAction};
use crate::channel::{BoundedChannel, RecvOutcome, SendOutcome};
use crate::fan_in::{
    is_fan_in_by, lemma_fan_in_len, lemma_fan_in_of_one, lemma_log_of_push, lemma_project_push,
    log_of, project, total_len, LogLine,
};
use crate::script::{
    forwarded, lemma_forwarded_unfold, lemma_stream_log_unfold, stream_log, Script, ScriptModel,
    StreamItem,
};
use crate::text::output_line;
use crate::update::Category;
use crate::worker::{transition, Diagnostic, Phase, WorkerAction, WorkerError, WorkerEvent};
use vstd::prelude::*;

verus! {

/// Who runs next.
#[derive(Clone, Copy, Debug, PartialEq, Eq)]
pub enum Turn {
    /// The worker at this position takes one step, if there is such a
    /// worker and it is not waiting for room in the channel.
    Worker(usize),
    /// The aggregator takes one value from the channel, if one is pending.
    Aggregator,
}

/// What a run of the pipeline produced.
#[derive(Debug, PartialEq, Eq)]
pub struct Report {
    /// The values the aggregator received, in the order of arrival.
    pub emitted: Vec<u64>,
    /// The position of the worker that each of these values came from.
    pub origins: Vec<usize>,
    /// The lines the aggregator printed, one per value.
    pub lines: Vec<String>,
    /// The diagnostic stream.
    pub log: Vec<LogLine>,
    /// How each worker ended, by position.
    pub exits: Vec<Result<(), WorkerError>>,
    /// The largest number of values that were pending at once.
    pub peak_pending: usize,
    /// Whether the aggregator found the channel closed and empty at the end.
    pub closed: bool,
}

/// What every worker is due to deliver, by position.
pub open spec fn expected_sources(category: Category, scripts: Seq<Script>) -> Seq<Seq<u64>> {
    Seq::new(scripts.len(), |i: int| scripts[i]@.values(category))
}

/// `report` is what a run of workers of `category` against `scripts` over a
/// channel of `capacity` may produce.
pub open spec fn is_run_of(
    report: Report,
    category: Category,
    scripts: Seq<Script>,
    capacity: nat,
) -> bool {
    &&& is_fan_in_by(report.emitted@, report.origins@, expected_sources(category, scripts))
    &&& report.lines.deep_view() == output_lines(report.emitted@)
    &&& forall|i: nat|
        i < scripts.len() ==> #[trigger] log_of(report.log@, i) == scripts[i as int]@.log(
            category,
        )
    &&& forall|k: int|
        0 <= k < report.log@.len() ==> (#[trigger] report.log@[k]).worker < scripts.len()
    &&& report.exits@.len() == scripts.len()
    &&& forall|i: int|
        0 <= i < scripts.len() ==> #[trigger] report.exits@[i] == scripts[i]@.exit()
    &&& report.peak_pending <= capacity
    &&& report.closed
}

#[derive(Clone, Copy)]
struct Task {
    phase: Phase,
    cursor: usize,
}

struct State {
    tasks: Vec<Task>,
    channel: BoundedChannel,
    emitted: Vec<u64>,
    lines: Vec<String>,
    log: Vec<LogLine>,
    exits: Vec<Result<(), WorkerError>>,
    peak: usize,
    origins: Vec<usize>,
}

spec fn unfinished(tasks: Seq<Task>) -> nat
    decreases tasks.len(),
{
    if tasks.len() == 0 {
        0
    } else {
        unfinished(tasks.drop_last()) + if tasks.last().phase is Finished {
            0nat
        } else {
            1nat
        }
    }
}

spec fn counts(phase: Phase) -> nat {
    if phase is Finished {
        0
    } else {
        1
    }
}

proof fn lemma_unfinished_update(tasks: Seq<Task>, at: int, task: Task)
    requires
        0 <= at < tasks.len(),
    ensures
        unfinished(tasks.update(at, task)) + counts(tasks[at].phase) == unfinished(tasks) + counts(
            task.phase,
        ),
    decreases tasks.len(),
{
    let changed = tasks.update(at, task);
    if at == tasks.len() - 1 {
        assert(changed.drop_last() =~= tasks.drop_last());
    } else {
        assert(changed.drop_last() =~= tasks.drop_last().update(at, task));
        lemma_unfinished_update(tasks.drop_last(), at, task);
    }
}

proof fn lemma_unfinished_none(tasks: Seq<Task>)
    requires
        forall|j: int| 0 <= j < tasks.len() ==> (#[trigger] tasks[j]).phase is Finished,
    ensures
        unfinished(tasks) == 0,
    decreases tasks.len(),
{
    if tasks.len() > 0 {
        lemma_unfinished_none(tasks.drop_last());
    }
}

/// The values that the worker has still to put into the channel.
spec fn remaining_values(category: Category, script: ScriptModel, task: Task) -> Seq<u64> {
    let rest = forwarded(category, script.items.skip(task.cursor as int));
    match task.phase {
        Phase::Created | Phase::Connecting => if script.setup_ok() {
            rest
        } else {
            Seq::empty()
        },
        Phase::Subscribing => if script.subscribe_ok {
            rest
        } else {
            Seq::empty()
        },
        Phase::Receiving => rest,
        Phase::Sending { value } => seq![value] + rest,
        Phase::Finished => Seq::empty(),
    }
}

/// The diagnostics that are still to be written for the worker.
spec fn remaining_log(category: Category, script: ScriptModel, task: Task) -> Seq<Diagnostic> {
    let rest = stream_log(category, script.items.skip(task.cursor as int));
    let failure = seq![Diagnostic::WorkerFailed(WorkerError::Connection)];
    match task.phase {
        Phase::Created | Phase::Connecting => if script.setup_ok() {
            rest
        } else {
            failure
        },
        Phase::Subscribing => if script.subscribe_ok {
            rest
        } else {
            failure
        },
        Phase::Receiving | Phase::Sending { .. } => rest,
        Phase::Finished => Seq::empty(),
    }
}

/// A bound on the steps that the worker can still take.
spec fn potential(script: ScriptModel, task: Task) -> nat {
    let unread = (script.items.len() - task.cursor) as nat;
    match task.phase {
        Phase::Created => 3 * unread + 4,
        Phase::Connecting => 3 * unread + 3,
        Phase::Subscribing => 3 * unread + 2,
        Phase::Sending { .. } => 3 * unread + 2,
        Phase::Receiving => 3 * unread + 1,
        Phase::Finished => 0,
    }
}

/// What the script lets the worker see next; `None` while it has to wait
/// or is finished.
spec fn scripted_event(script: ScriptModel, task: Task, accepted: bool) -> Option<WorkerEvent> {
    match task.phase {
        Phase::Created => Some(WorkerEvent::Start),
        Phase::Connecting => Some(
            if script.connect_ok {
                WorkerEvent::Connected
            } else {
                WorkerEvent::ConnectFailed
            },
        ),
        Phase::Subscribing => Some(
            if script.subscribe_ok {
                WorkerEvent::Subscribed
            } else {
                WorkerEvent::SubscribeFailed
            },
        ),
        Phase::Receiving => Some(
            if task.cursor < script.items.len() {
                match script.items[task.cursor as int] {
                    StreamItem::Update(update) => WorkerEvent::Message(update),
                    StreamItem::Failure => WorkerEvent::StreamFailed,
                }
            } else {
                WorkerEvent::StreamClosed
            },
        ),
        Phase::Sending { .. } => if accepted {
            Some(WorkerEvent::SendDone { delivered: true })
        } else {
            None
        },
        Phase::Finished => None,
    }
}

spec fn cursor_after(script: ScriptModel, task: Task) -> usize {
    if task.phase is Receiving && task.cursor < script.items.len() {
        (task.cursor + 1) as usize
    } else {
        task.cursor
    }
}

/// The lines that a step writes: its diagnostic, then its failure.
spec fn lines_of(log: Option<Diagnostic>, action: WorkerAction) -> Seq<Diagnostic> {
    let first = match log {
        Some(line) => seq![line],
        None => Seq::empty(),
    };
    match action {
        WorkerAction::Exit(Err(error)) => first.push(Diagnostic::WorkerFailed(error)),
        _ => first,
    }
}

spec fn task_consistent(script: ScriptModel, task: Task) -> bool {
    &&& task.cursor <= script.items.len() <= usize::MAX
    &&& task.phase is Subscribing ==> script.connect_ok
    &&& task.phase is Receiving || task.phase is Sending ==> script.setup_ok()
}

/// One step of a worker against its script: what stays to be done shrinks
/// by exactly what the step did.
proof fn lemma_scripted_step(category: Category, script: ScriptModel, task: Task, accepted: bool)
    requires
        task_consistent(script, task),
        scripted_event(script, task, accepted) is Some,
    ensures
        crate::worker::next(category, task.phase, scripted_event(script, task, accepted)->Some_0)
            is Some,
        ({
            let step = crate::worker::next(
                category,
                task.phase,
                scripted_event(script, task, accepted)->Some_0,
            )->Some_0;
            let after = Task { phase: step.phase, cursor: cursor_after(script, task) };
            &&& task_consistent(script, after)
            &&& potential(script, after) < potential(script, task)
            &&& task.phase is Sending ==> remaining_values(category, script, task) == seq![
                task.phase->value,
            ] + remaining_values(category, script, after)
            &&& !(task.phase is Sending) ==> remaining_values(category, script, task)
                == remaining_values(category, script, after)
            &&& remaining_log(category, script, task) == lines_of(step.log, step.action)
                + remaining_log(category, script, after)
            &&& step.phase is Finished <==> step.action is Exit
            &&& step.action matches WorkerAction::Exit(result) ==> result == script.exit()
        }),
{
    let event = scripted_event(script, task, accepted)->Some_0;
    let step = crate::worker::next(category, task.phase, event)->Some_0;
    let after = Task { phase: step.phase, cursor: cursor_after(script, task) };
    if task.phase is Receiving && task.cursor < script.items.len() {
        lemma_forwarded_unfold(category, script.items, task.cursor as int);
        lemma_stream_log_unfold(category, script.items, task.cursor as int);
    }
    if task.phase is Receiving && task.cursor >= script.items.len() {
        assert(script.items.skip(task.cursor as int).len() == 0);
    }
    if task.phase is Sending {
        assert(remaining_values(category, script, task) =~= seq![task.phase->value]
            + remaining_values(category, script, after));
    }
}

impl State {
    /// Everything that was sent, received or not, in the order of sending;
    /// `origins` holds the sender of each of these values.
    spec fn flow(&self) -> Seq<u64> {
        self.emitted@ + self.channel@.pending
    }

    spec fn task_inv(&self, category: Category, scripts: Seq<Script>, i: int) -> bool {
        let script = scripts[i]@;
        let task = self.tasks@[i];
        &&& task_consistent(script, task)
        &&& project(self.flow(), self.origins@, i as nat) + remaining_values(category, script, task)
            == script.values(category)
        &&& log_of(self.log@, i as nat) + remaining_log(category, script, task) == script.log(
            category,
        )
        &&& task.phase is Finished ==> self.exits@[i] == script.exit()
    }

    spec fn inv(&self, category: Category, scripts: Seq<Script>, capacity: nat) -> bool {
        &&& self.channel.wf()
        &&& self.channel@.capacity == capacity
        &&& self.channel@.receiver_open
        &&& self.channel@.senders == unfinished(self.tasks@)
        &&& self.tasks@.len() == scripts.len()
        &&& self.exits@.len() == scripts.len()
        &&& self.origins@.len() == self.flow().len()
        &&& forall|k: int| 0 <= k < self.origins@.len() ==> #[trigger] self.origins@[k] < scripts.len()
        &&& forall|k: int|
            0 <= k < self.log@.len() ==> (#[trigger] self.log@[k]).worker < scripts.len()
        &&& self.peak <= capacity
        &&& self.lines@.len() == self.emitted@.len()
        &&& forall|k: int|
            0 <= k < self.lines@.len() ==> (#[trigger] self.lines@[k])@ == output_line(
                self.emitted@[k],
            )
        &&& forall|i: int|
            0 <= i < scripts.len() ==> #[trigger] self.task_inv(category, scripts, i)
    }

    /// The worker at `i` neither is finished nor waits for room.
    spec fn can_progress(&self, i: int) -> bool {
        let task = self.tasks@[i];
        !(task.phase is Finished) && !(task.phase is Sending && self.channel@.is_full())
    }

    /// The aggregator takes one value, if one is pending.
    fn step_aggregator(
        &mut self,
        Ghost(category): Ghost<Category>,
        Ghost(scripts): Ghost<Seq<Script>>,
    )
        requires
            old(self).inv(category, scripts, old(self).channel@.capacity),
        ensures
            final(self).inv(category, scripts, old(self).channel@.capacity),
            final(self).tasks@ == old(self).tasks@,
            final(self).channel@ == old(self).channel@.after_recv(),
    {
        let ghost before = self.flow();
        match self.channel.try_recv() {
            RecvOutcome::Value(value) => {
                match aggregate(Some(value)) {
                    AggregatorAction::Emit(line) => {
                        self.emitted.push(value);
                        self.lines.push(line);
                    },
                    AggregatorAction::Stop => {},
                }
            },
            _ => {},
        }
        proof {
            assert(self.flow() =~= before);
            assert forall|i: int| 0 <= i < scripts.len() implies #[trigger] self.task_inv(
                category,
                scripts,
                i,
            ) by {
                assert(old(self).task_inv(category, scripts, i));
            }
        }
    }

    /// The worker at `i` takes one step, unless it has to wait.
    fn step_worker(&mut self, category: Category, scripts: &Vec<Script>, i: usize)
        requires
            old(self).inv(category, scripts@, old(self).channel@.capacity),
            i < scripts.len(),
        ensures
            final(self).inv(category, scripts@, old(self).channel@.capacity),
            old(self).can_progress(i as int) ==> potential(
                scripts@[i as int]@,
                final(self).tasks@[i as int],
            ) < potential(scripts@[i as int]@, old(self).tasks@[i as int]),
            !old(self).can_progress(i as int) ==> final(self).tasks@ == old(self).tasks@,
            forall|j: int|
                0 <= j < scripts.len() && j != i ==> #[trigger] final(self).tasks@[j] == old(
                    self,
                ).tasks@[j],
    {
        let ghost capacity = self.channel@.capacity;
        let ghost script = scripts@[i as int]@;
        let task = self.tasks[i];
        let items = &scripts[i].items;
        assert(old(self).task_inv(category, scripts@, i as int));
        proof {
            if !(task.phase is Finished) {
                lemma_unfinished_update(
                    self.tasks@,
                    i as int,
                    Task { phase: Phase::Finished, cursor: task.cursor },
                );
            }
        }
        let mut accepted = false;
        let event = match task.phase {
            Phase::Created => Some(WorkerEvent::Start),
            Phase::Connecting => if scripts[i].connect_ok {
                Some(WorkerEvent::Connected)
            } else {
                Some(WorkerEvent::ConnectFailed)
            },
            Phase::Subscribing => if scripts[i].subscribe_ok {
                Some(WorkerEvent::Subscribed)
            } else {
                Some(WorkerEvent::SubscribeFailed)
            },
            Phase::Receiving => if task.cursor < items.len() {
                match items[task.cursor] {
                    StreamItem::Update(update) => Some(WorkerEvent::Message(update)),
                    StreamItem::Failure => Some(WorkerEvent::StreamFailed),
                }
            } else {
                Some(WorkerEvent::StreamClosed)
            },
            Phase::Sending { value } => match self.channel.try_send(value) {
                SendOutcome::Accepted => {
                    accepted = true;
                    let pending = self.channel.len();
                    if pending > self.peak {
                        self.peak = pending;
                    }
                    self.origins.push(i);
                    Some(WorkerEvent::SendDone { delivered: true })
                },
                _ => None,
            },
            Phase::Finished => None,
        };
        let ghost flow_before = old(self).flow();
        let ghost origins_before = old(self).origins@;
        let ghost log_before = self.log@;
        match event {
            Some(event) => {
                proof {
                    lemma_scripted_step(category, script, task, accepted);
                }
                match transition(category, task.phase, event) {
                    Some(step) => {
                        let cursor = match task.phase {
                            Phase::Receiving => if task.cursor < items.len() {
                                task.cursor + 1
                            } else {
                                task.cursor
                            },
                            _ => task.cursor,
                        };
                        let after = Task { phase: step.phase, cursor };
                        match step.log {
                            Some(diagnostic) => {
                                self.log.push(LogLine { worker: i, diagnostic });
                            },
                            None => {},
                        }
                        let ghost log_middle = self.log@;
                        match step.action {
                            WorkerAction::Exit(result) => {
                                self.channel.release_sender();
                                self.exits.set(i, result);
                                match result {
                                    Err(error) => {
                                        self.log.push(
                                            LogLine {
                                                worker: i,
                                                diagnostic: Diagnostic::WorkerFailed(error),
                                            },
                                        );
                                    },
                                    Ok(_) => {},
                                }
                            },
                            _ => {},
                        }
                        self.tasks.set(i, after);
                        proof {
                            lemma_unfinished_update(old(self).tasks@, i as int, after);
                            if step.log is Some {
                                lemma_log_of_push(
                                    log_before,
                                    LogLine { worker: i, diagnostic: step.log->Some_0 },
                                    i as nat,
                                );
                            }
                            match step.action {
                                WorkerAction::Exit(Err(error)) => {
                                    lemma_log_of_push(
                                        log_middle,
                                        LogLine {
                                            worker: i,
                                            diagnostic: Diagnostic::WorkerFailed(error),
                                        },
                                        i as nat,
                                    );
                                },
                                _ => {},
                            }
                            assert(log_of(self.log@, i as nat) =~= log_of(log_before, i as nat)
                                + lines_of(step.log, step.action));
                            if accepted {
                                lemma_project_push(
                                    flow_before,
                                    origins_before,
                                    task.phase->value,
                                    i,
                                    i as nat,
                                );
                            }
                            assert(self.task_inv(category, scripts@, i as int)) by {
                                assert(project(self.flow(), self.origins@, i as nat)
                                    + remaining_values(category, script, after) =~= project(
                                    flow_before,
                                    origins_before,
                                    i as nat,
                                ) + remaining_values(category, script, task));
                                assert(log_of(self.log@, i as nat) + remaining_log(
                                    category,
                                    script,
                                    after,
                                ) =~= log_of(log_before, i as nat) + remaining_log(
                                    category,
                                    script,
                                    task,
                                ));
                            }
                            assert forall|j: int|
                                0 <= j < scripts@.len() && j != i implies #[trigger] self.task_inv(
                                category,
                                scripts@,
                                j,
                            ) by {
                                assert(old(self).task_inv(category, scripts@, j));
                                if accepted {
                                    lemma_project_push(
                                        flow_before,
                                        origins_before,
                                        task.phase->value,
                                        i,
                                        j as nat,
                                    );
                                }
                                if step.log is Some {
                                    lemma_log_of_push(
                                        log_before,
                                        LogLine { worker: i, diagnostic: step.log->Some_0 },
                                        j as nat,
                                    );
                                }
                                match step.action {
                                    WorkerAction::Exit(Err(error)) => {
                                        lemma_log_of_push(
                                            log_middle,
                                            LogLine {
                                                worker: i,
                                                diagnostic: Diagnostic::WorkerFailed(error),
                                            },
                                            j as nat,
                                        );
                                    },
                                    _ => {},
                                }
                            }
                        }
                    },
                    None => {},
                }
            },
            None => {
                proof {
                    assert forall|j: int| 0 <= j < scripts@.len() implies #[trigger] self.task_inv(
                        category,
                        scripts@,
                        j,
                    ) by {
                        assert(old(self).task_inv(category, scripts@, j));
                    }
                }
            },
        }
    }
}

fn is_finished(phase: Phase) -> (result: bool)
    ensures
        result == (phase is Finished),
{
    match phase {
        Phase::Finished => true,
        _ => false,
    }
}

/// Spawns one worker per script over a fresh channel and releases the
/// spawner's own sending handle.
fn spawn_all(category: Category, scripts: &Vec<Script>, capacity: usize) -> (state: State)
    requires
        capacity > 0,
        scripts.len() < usize::MAX,
    ensures
        state.inv(category, scripts@, capacity as nat),
        state.emitted@.len() == 0,
{
    let n = scripts.len();
    let mut channel = BoundedChannel::new(capacity);
    let mut tasks: Vec<Task> = Vec::new();
    let mut exits: Vec<Result<(), WorkerError>> = Vec::new();
    let mut k: usize = 0;
    while k < n
        invariant
            k <= n,
            n == scripts.len(),
            n < usize::MAX,
            tasks@.len() == k,
            exits@.len() == k,
            channel.wf(),
            channel@.capacity == capacity,
            channel@.pending.len() == 0,
            channel@.receiver_open,
            channel@.senders == k + 1,
            unfinished(tasks@) == k,
            forall|j: int|
                0 <= j < k ==> #[trigger] tasks@[j] == (Task { phase: Phase::Created, cursor: 0 }),
        decreases n - k,
    {
        channel.clone_sender();
        let ghost before = tasks@;
        tasks.push(Task { phase: Phase::Created, cursor: 0 });
        assert(tasks@.drop_last() =~= before);
        exits.push(Ok(()));
        k = k + 1;
    }
    channel.release_sender();
    let state = State {
        tasks,
        channel,
        emitted: Vec::new(),
        lines: Vec::new(),
        log: Vec::new(),
        exits,
        peak: 0,
        origins: Vec::new(),
    };
    proof {
        assert forall|i: int| 0 <= i < scripts@.len() implies #[trigger] state.task_inv(
            category,
            scripts@,
            i,
        ) by {
            let script = scripts@[i]@;
            assert(scripts@[i].items.len() <= usize::MAX);
            assert(script.items.skip(0) =~= script.items);
        }
    }
    state
}

/// Runs the pipeline against `scripts`, one worker per script, over a
/// channel of `capacity`.
///
/// Workers and aggregator first take turns as `schedule` says; then every
/// worker runs until it has finished, and the aggregator drains the channel
/// until it is closed. A worker that finds the channel full waits until the
/// aggregator has taken a value.
///
/// Whatever the schedule, the emitted values are a merge of what the scripts
/// make the workers forward: each worker's values complete and in its own
/// order. The log holds each worker's diagnostics in order, and at no time
/// were more than `capacity` values pending.
pub fn simulate(
    category: Category,
    scripts: &Vec<Script>,
    capacity: usize,
    schedule: &Vec<Turn>,
) -> (report: Report)
    requires
        capacity > 0,
        scripts.len() < usize::MAX,
    ensures
        is_run_of(report, category, scripts@, capacity as nat),
{
    let n = scripts.len();
    let mut state = spawn_all(category, scripts, capacity);
    let mut turn: usize = 0;
    while turn < schedule.len()
        invariant
            n == scripts.len(),
            state.inv(category, scripts@, capacity as nat),
        decreases schedule.len() - turn,
    {
        match schedule[turn] {
            Turn::Worker(i) => {
                if i < n {
                    state.step_worker(category, scripts, i);
                }
            },
            Turn::Aggregator => {
                state.step_aggregator(Ghost(category), Ghost(scripts@));
            },
        }
        turn = turn + 1;
    }
    let mut i: usize = 0;
    while i < n
        invariant
            i <= n,
            n == scripts.len(),
            state.inv(category, scripts@, capacity as nat),
            forall|j: int| 0 <= j < i ==> (#[trigger] state.tasks@[j]).phase is Finished,
        decreases n - i,
    {
        while !is_finished(state.tasks[i].phase)
            invariant
                i < n,
                n == scripts.len(),
                state.inv(category, scripts@, capacity as nat),
                forall|j: int| 0 <= j < i ==> (#[trigger] state.tasks@[j]).phase is Finished,
            decreases potential(scripts@[i as int]@, state.tasks@[i as int]),
        {
            if state.channel.is_full() {
                state.step_aggregator(Ghost(category), Ghost(scripts@));
            }
            state.step_worker(category, scripts, i);
        }
        i = i + 1;
    }
    while state.channel.len() > 0
        invariant
            n == scripts.len(),
            state.inv(category, scripts@, capacity as nat),
            forall|j: int| 0 <= j < n ==> (#[trigger] state.tasks@[j]).phase is Finished,
        decreases state.channel@.pending.len(),
    {
        state.step_aggregator(Ghost(category), Ghost(scripts@));
    }
    proof {
        assert(state.lines.deep_view() =~= output_lines(state.emitted@));
        lemma_unfinished_none(state.tasks@);
        let sources = expected_sources(category, scripts@);
        assert forall|i: nat| i < sources.len() implies #[trigger] project(
            state.emitted@,
            state.origins@,
            i,
        ) == sources[i as int] by {
            assert(state.task_inv(category, scripts@, i as int));
        }
        assert forall|i: nat| i < scripts@.len() implies #[trigger] log_of(state.log@, i)
            == scripts@[i as int]@.log(category) by {
            assert(state.task_inv(category, scripts@, i as int));
        }
        assert forall|i: int| 0 <= i < scripts@.len() implies #[trigger] state.exits@[i]
            == scripts@[i]@.exit() by {
            assert(state.task_inv(category, scripts@, i));
        }
    }
    let closed = match state.channel.try_recv() {
        RecvOutcome::Closed => match aggregate(None) {
            AggregatorAction::Stop => true,
            _ => false,
        },
        _ => false,
    };
    Report {
        emitted: state.emitted,
        origins: state.origins,
        lines: state.lines,
        log: state.log,
        exits: state.exits,
        peak_pending: state.peak,
        closed,
    }
}

/// A run loses no value and makes none up: it emits as many values as the
/// scripts make the workers forward, and one line for each. Without
/// endpoints the aggregator stops at once, with no output.
pub proof fn lemma_run_emits_every_value(
    report: Report,
    category: Category,
    scripts: Seq<Script>,
    capacity: nat,
)
    requires
        is_run_of(report, category, scripts, capacity),
    ensures
        report.emitted@.len() == total_len(expected_sources(category, scripts)),
        report.lines@.len() == report.emitted@.len(),
        scripts.len() == 0 ==> report.emitted@.len() == 0 && report.lines@.len() == 0
            && report.log@.len() == 0 && report.closed,
{
    lemma_fan_in_len(report.emitted@, report.origins@, expected_sources(category, scripts));
    assert(report.lines.deep_view().len() == report.lines@.len());
    if scripts.len() == 0 && report.log@.len() > 0 {
        assert(report.log@[0].worker < scripts.len());
    }
}

/// With a single endpoint the output is what its worker forwards, value
/// for value and in the order of the stream.
pub proof fn lemma_run_of_one_endpoint(
    report: Report,
    category: Category,
    scripts: Seq<Script>,
    capacity: nat,
)
    requires
        is_run_of(report, category, scripts, capacity),
        scripts.len() == 1,
    ensures
        report.emitted@ == scripts[0]@.values(category),
        report.lines.deep_view() == output_lines(scripts[0]@.values(category)),
{
    lemma_fan_in_of_one(report.emitted@, report.origins@, expected_sources(category, scripts));
}

/// A worker's failure stays its own. Take two runs, over any schedules and
/// capacities, whose scripts agree for the endpoint at `position`, however
/// the other endpoints behave: they may refuse the connection or fail in
/// mid-stream. Then the worker at `position` ends the same way in both
/// runs, writes the same diagnostics, and the same values arrive from it,
/// all of them and in the same order.
pub proof fn lemma_workers_are_isolated(
    category: Category,
    position: nat,
    report_a: Report,
    scripts_a: Seq<Script>,
    capacity_a: nat,
    report_b: Report,
    scripts_b: Seq<Script>,
    capacity_b: nat,
)
    requires
        is_run_of(report_a, category, scripts_a, capacity_a),
        is_run_of(report_b, category, scripts_b, capacity_b),
        position < scripts_a.len(),
        position < scripts_b.len(),
        scripts_a[position as int]@ == scripts_b[position as int]@,
    ensures
        report_a.exits@[position as int] == report_b.exits@[position as int],
        log_of(report_a.log@, position) == log_of(report_b.log@, position),
        project(report_a.emitted@, report_a.origins@, position) == project(
            report_b.emitted@,
            report_b.origins@,
            position,
        ),
        project(report_a.emitted@, report_a.origins@, position) == scripts_a[position as int]@
            .values(category),
{
}

} // verus!
