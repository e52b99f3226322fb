//! The supervision of one operator process.
//!
//! The process moves through the phases of [`crate::health::Phase`]. It is ready in
//! standby, while it waits for the lease, and it starts the controllers only when
//! it leads. It stops when a supervised task finishes, when a supervised task
//! fails, when it loses the lease, or when a shutdown signal arrives.

use crate::health::{HealthState, Phase};
use crate::text;
use vstd::prelude::*;
use vstd::string::*;

verus! {

/// A step of the process on its way to leading.
#[derive(Debug, Clone, Copy, PartialEq, Eq, Structural)]
pub enum Milestone {
    /// The Kubernetes client is there.
    ClientBuilt,
    /// The lease is held.
    LeaseAcquired,
}

impl Milestone {
    /// The phase that the step leads to. The process is ready before it has the
    /// lease: a rolling update stops the old leader only after this pod is ready.
    pub open spec fn phase(self) -> Phase {
        match self {
            Milestone::ClientBuilt => Phase::Standby,
            Milestone::LeaseAcquired => Phase::Leading,
        }
    }
}

/// Move the process to the phase of `milestone`, and give the line to log.
pub fn reach(health: &mut HealthState, milestone: Milestone) -> (r: &'static str)
    ensures
        final(health).current() == old(health).current().later(milestone.phase()),
        final(health).metrics_registry() == old(health).metrics_registry(),
        final(health).leader_gauge() == old(health).leader_gauge(),
        final(health).leader_cell() == old(health).leader_cell(),
        r@ == match milestone {
            Milestone::ClientBuilt => "ready in standby; waiting for the leader-election lease"@,
            Milestone::LeaseAcquired => "leading; starting the controllers"@,
        },
{
    match milestone {
        Milestone::ClientBuilt => {
            health.advance(Phase::Standby);
            "ready in standby; waiting for the leader-election lease"
        },
        Milestone::LeaseAcquired => {
            health.advance(Phase::Leading);
            "leading; starting the controllers"
        },
    }
}

/// A supervised task.
#[derive(Debug, Clone, Copy, PartialEq, Eq, Structural)]
pub enum Task {
    Health,
    Kafka,
    KafkaNodePool,
    KafkaTopic,
    KafkaUser,
    KafkaRebalance,
    KafkaGrpcGateway,
    KafkaConnector,
    SchemaRegistry,
}

impl Task {
    /// What a task of a controller is called in a log line.
    pub open spec fn controller(self) -> Seq<char> {
        match self {
            Task::Health => "health"@,
            Task::Kafka => "Kafka controller"@,
            Task::KafkaNodePool => "KafkaNodePool controller"@,
            Task::KafkaTopic => "KafkaTopic controller"@,
            Task::KafkaUser => "KafkaUser controller"@,
            Task::KafkaRebalance => "KafkaRebalance controller"@,
            Task::KafkaGrpcGateway => "KafkaGrpcGateway controller"@,
            Task::KafkaConnector => "KafkaConnector controller"@,
            Task::SchemaRegistry => "SchemaRegistry controller"@,
        }
    }

    /// The log line for a task that ended with an error.
    pub open spec fn failed(self) -> Seq<char> {
        (if self is Health {
            "health server"@
        } else {
            self.controller()
        }) + " exited with error"@
    }

    /// The log line for a task that panicked.
    pub open spec fn panicked(self) -> Seq<char> {
        self.controller() + " task panicked"@
    }

    fn name(self) -> (r: &'static str)
        ensures
            r@ == self.controller(),
    {
        match self {
            Task::Health => "health",
            Task::Kafka => "Kafka controller",
            Task::KafkaNodePool => "KafkaNodePool controller",
            Task::KafkaTopic => "KafkaTopic controller",
            Task::KafkaUser => "KafkaUser controller",
            Task::KafkaRebalance => "KafkaRebalance controller",
            Task::KafkaGrpcGateway => "KafkaGrpcGateway controller",
            Task::KafkaConnector => "KafkaConnector controller",
            Task::SchemaRegistry => "SchemaRegistry controller",
        }
    }
}

/// How a supervised task ended.
#[derive(Debug, Clone, PartialEq, Eq)]
pub enum TaskEnd {
    /// It finished.
    Finished,
    /// It ended with this error.
    Failed(String),
    /// It panicked, which the runtime reports with this error.
    Panicked(String),
}

/// Why the process stops.
#[derive(Debug, PartialEq, Eq)]
pub enum Event {
    /// The renewal of the lease ended.
    LeadershipEnded(Result<(), String>),
    /// A supervised task ended.
    TaskEnded(Task, TaskEnd),
    /// A shutdown signal arrived.
    Shutdown,
}

/// A line to log.
#[derive(Debug, Clone, PartialEq, Eq)]
pub enum LogLine {
    Info(String),
    /// A message, and the error that it is about.
    Error { message: String, error: String },
}

/// How the process stops: what it logs, and its result.
#[derive(Debug, PartialEq, Eq)]
pub struct Stop {
    pub log: Option<LogLine>,
    pub result: Result<(), String>,
}

/// Whether `stop` is how the process stops on `event`. Only the loss of the lease
/// is an error of the process. The failure of a task is logged.
pub open spec fn answers(stop: Stop, event: Event) -> bool {
    match event {
        Event::LeadershipEnded(end) => {
            &&& stop.log is None
            &&& stop.result matches Err(error)
            &&& error@ == match end {
                Ok(_) => "leader-election renewal stopped"@,
                Err(reason) => reason@,
            }
        },
        Event::TaskEnded(task, end) => {
            &&& stop.result is Ok
            &&& match end {
                TaskEnd::Finished => stop.log is None,
                TaskEnd::Failed(e) => stop.log matches Some(LogLine::Error { message, error })
                    && message@ == task.failed() && error@ == e@,
                TaskEnd::Panicked(e) => stop.log matches Some(LogLine::Error { message, error })
                    && message@ == task.panicked() && error@ == e@,
            }
        },
        Event::Shutdown => {
            &&& stop.result is Ok
            &&& stop.log matches Some(LogLine::Info(message))
            &&& message@ == "shutdown signal received"@
        },
    }
}

/// Stop the process on `event`.
pub fn stop(health: &mut HealthState, event: Event) -> (r: Stop)
    ensures
        final(health).current() == Phase::Stopping,
        final(health).metrics_registry() == old(health).metrics_registry(),
        final(health).leader_gauge() == old(health).leader_gauge(),
        final(health).leader_cell() == old(health).leader_cell(),
        answers(r, event),
{
    health.advance(Phase::Stopping);
    match event {
        Event::LeadershipEnded(end) => {
            let reason = match end {
                Ok(_) => String::from_str("leader-election renewal stopped"),
                Err(reason) => reason,
            };
            Stop { log: None, result: Err(reason) }
        },
        Event::TaskEnded(task, end) => {
            let log = match end {
                TaskEnd::Finished => None,
                TaskEnd::Failed(error) => {
                    let mut message = String::from_str(
                        match task {
                            Task::Health => "health server",
                            _ => task.name(),
                        },
                    );
                    message.append(" exited with error");
                    Some(LogLine::Error { message, error })
                },
                TaskEnd::Panicked(error) => {
                    let mut message = String::from_str(task.name());
                    message.append(" task panicked");
                    Some(LogLine::Error { message, error })
                },
            };
            Stop { log, result: Ok(()) }
        },
        Event::Shutdown => Stop {
            log: Some(LogLine::Info(String::from_str("shutdown signal received"))),
            result: Ok(()),
        },
    }
}

/// What happens to a process.
#[derive(Debug, PartialEq, Eq)]
pub enum Input {
    /// The Kubernetes client is there.
    ClientBuilt,
    /// There is no Kubernetes client, because of this error.
    ClientFailed(String),
    /// The lease is held.
    LeaseAcquired,
    /// The lease cannot be had, because of this error.
    LeaseFailed(String),
    /// Something happened on which the process stops.
    Ended(Event),
}

/// What a process does next.
#[derive(Debug, PartialEq, Eq)]
pub enum Action {
    /// Log this line, and ask for the lease.
    RequestLease(&'static str),
    /// Log this line, and start the controllers.
    StartControllers(&'static str),
    /// Return.
    Return(Stop),
    /// Go on as before.
    Continue,
}

/// The phase that `input` leads to from `phase`.
pub open spec fn next_phase(phase: Phase, input: Input) -> Phase {
    match input {
        Input::ClientBuilt => if phase == Phase::Starting {
            Phase::Standby
        } else {
            phase
        },
        Input::LeaseAcquired => if phase == Phase::Standby {
            Phase::Leading
        } else {
            phase
        },
        Input::ClientFailed(_) => phase,
        Input::LeaseFailed(_) => phase,
        Input::Ended(_) => Phase::Stopping,
    }
}

/// Whether `action` is what a process in `phase` does on `input`.
pub open spec fn acts(action: Action, phase: Phase, input: Input) -> bool {
    match input {
        Input::ClientBuilt => if phase == Phase::Starting {
            action matches Action::RequestLease(line) && line@
                == "ready in standby; waiting for the leader-election lease"@
        } else {
            action is Continue
        },
        Input::LeaseAcquired => if phase == Phase::Standby {
            action matches Action::StartControllers(line) && line@
                == "leading; starting the controllers"@
        } else {
            action is Continue
        },
        Input::ClientFailed(e) => action matches Action::Return(stop) && stop.log is None && (
        stop.result matches Err(error) && error@ == e@),
        Input::LeaseFailed(e) => action matches Action::Return(stop) && stop.log is None && (
        stop.result matches Err(error) && error@ == e@),
        Input::Ended(event) => action matches Action::Return(stop) && answers(stop, event),
    }
}

/// Move the process on `input`, and give what it does next. Without a client, or
/// without the lease, it returns the error in the phase that it is in.
pub fn step(health: &mut HealthState, input: Input) -> (r: Action)
    ensures
        final(health).current() == next_phase(old(health).current(), input),
        acts(r, old(health).current(), input),
        final(health).metrics_registry() == old(health).metrics_registry(),
        final(health).leader_gauge() == old(health).leader_gauge(),
        final(health).leader_cell() == old(health).leader_cell(),
{
    match input {
        Input::ClientBuilt => if health.phase() == Phase::Starting {
            Action::RequestLease(reach(health, Milestone::ClientBuilt))
        } else {
            Action::Continue
        },
        Input::LeaseAcquired => if health.phase() == Phase::Standby {
            Action::StartControllers(reach(health, Milestone::LeaseAcquired))
        } else {
            Action::Continue
        },
        Input::ClientFailed(error) => Action::Return(Stop { log: None, result: Err(error) }),
        Input::LeaseFailed(error) => Action::Return(Stop { log: None, result: Err(error) }),
        Input::Ended(event) => Action::Return(stop(health, event)),
    }
}

/// The phase of a process after `inputs`, from its start on.
pub open spec fn phase_after(inputs: Seq<Input>) -> Phase
    decreases inputs.len(),
{
    if inputs.len() == 0 {
        Phase::Starting
    } else {
        next_phase(phase_after(inputs.drop_last()), inputs.last())
    }
}

/// Whether the client was built at some point, and the lease was acquired at a later
/// one.
pub open spec fn acquired_after_client(inputs: Seq<Input>) -> bool {
    exists|i: int, j: int|
        0 <= i < j < inputs.len() && (#[trigger] inputs[i]) is ClientBuilt && (
        #[trigger] inputs[j]) is LeaseAcquired
}

/// Whether the client was built at some point.
pub open spec fn client_built(inputs: Seq<Input>) -> bool {
    exists|i: int| 0 <= i < inputs.len() && (#[trigger] inputs[i]) is ClientBuilt
}

/// The phases of a process come in order. In standby, its client was built. When it
/// leads, its client was built and it acquired the lease after that. Before the
/// client is built and before anything stops the process, it is starting, also where
/// the client cannot be built.
pub proof fn lemma_phases_come_in_order(inputs: Seq<Input>)
    ensures
        phase_after(inputs) is Standby ==> client_built(inputs),
        phase_after(inputs) is Leading ==> acquired_after_client(inputs),
        !client_built(inputs) ==> phase_after(inputs) is Starting || phase_after(inputs)
            is Stopping,
        !client_built(inputs) && (forall|i: int|
            0 <= i < inputs.len() ==> !((#[trigger] inputs[i]) is Ended)) ==> phase_after(inputs)
            is Starting,
    decreases inputs.len(),
{
    if inputs.len() > 0 {
        let before = inputs.drop_last();
        lemma_phases_come_in_order(before);
        assert forall|i: int| 0 <= i < before.len() implies #[trigger] before[i] == inputs[i] by {}
        let last = inputs.len() - 1;
        assert(inputs[last] == inputs.last());
        if client_built(before) {
            let i = choose|i: int| 0 <= i < before.len() && (#[trigger] before[i]) is ClientBuilt;
            assert(inputs[i] is ClientBuilt);
            if inputs.last() is LeaseAcquired {
                assert(inputs[i] is ClientBuilt && inputs[last] is LeaseAcquired);
            }
        }
        if acquired_after_client(before) {
            let (i, j) = choose|i: int, j: int|
                0 <= i < j < before.len() && (#[trigger] before[i]) is ClientBuilt && (
                #[trigger] before[j]) is LeaseAcquired;
            assert(inputs[i] is ClientBuilt && inputs[j] is LeaseAcquired);
        }
    }
}

/// What a process does comes in its phase. It asks for the lease when its client was
/// built, and then it is in standby. It starts the controllers when it acquired the
/// lease, after its client was built, and then it leads.
pub proof fn lemma_actions_follow_the_phase(inputs: Seq<Input>, input: Input, action: Action)
    requires
        acts(action, phase_after(inputs), input),
    ensures
        action is RequestLease ==> input is ClientBuilt && phase_after(inputs) is Starting
            && phase_after(inputs.push(input)) is Standby,
        action is StartControllers ==> input is LeaseAcquired && phase_after(inputs) is Standby
            && client_built(inputs) && phase_after(inputs.push(input)) is Leading,
        phase_after(inputs.push(input)) is Standby && !(phase_after(inputs) is Standby)
            ==> action is RequestLease,
        phase_after(inputs.push(input)) is Leading && !(phase_after(inputs) is Leading)
            ==> action is StartControllers,
        input is ClientFailed ==> action is Return && phase_after(inputs.push(input))
            == phase_after(inputs),
{
    assert(inputs.push(input).drop_last() =~= inputs);
    lemma_phases_come_in_order(inputs);
}

/// A process that stops stays stopping, so it asks for no lease and starts no
/// controllers any more.
pub proof fn lemma_stopped_process_does_nothing_new(
    inputs: Seq<Input>,
    input: Input,
    action: Action,
)
    requires
        phase_after(inputs) is Stopping,
        acts(action, phase_after(inputs), input),
    ensures
        phase_after(inputs.push(input)) is Stopping,
        action is Return || action is Continue,
{
    assert(inputs.push(input).drop_last() =~= inputs);
}

/// Whether something stopped the process at some point.
pub open spec fn ended(inputs: Seq<Input>) -> bool {
    exists|i: int| 0 <= i < inputs.len() && (#[trigger] inputs[i]) is Ended
}

/// The phase of a process tells what happened to it. It stops exactly where something
/// stopped it. Otherwise it leads exactly where it acquired the lease after its client
/// was built, is in standby exactly where its client was built and it acquired no lease
/// after that, and is starting exactly where its client was not built.
pub proof fn lemma_phase_tells_what_happened(inputs: Seq<Input>)
    ensures
        phase_after(inputs) is Stopping <==> ended(inputs),
        phase_after(inputs) is Leading <==> !ended(inputs) && acquired_after_client(inputs),
        phase_after(inputs) is Standby <==> !ended(inputs) && client_built(inputs)
            && !acquired_after_client(inputs),
        phase_after(inputs) is Starting <==> !ended(inputs) && !client_built(inputs),
    decreases inputs.len(),
{
    if inputs.len() > 0 {
        let before = inputs.drop_last();
        lemma_phase_tells_what_happened(before);
        assert forall|i: int| 0 <= i < before.len() implies #[trigger] before[i] == inputs[i] by {}
        let last = inputs.len() - 1;
        assert(inputs[last] == inputs.last());
        if ended(before) {
            let i = choose|i: int| 0 <= i < before.len() && (#[trigger] before[i]) is Ended;
            assert(inputs[i] is Ended);
        }
        if ended(inputs) && !(inputs.last() is Ended) {
            let i = choose|i: int| 0 <= i < inputs.len() && (#[trigger] inputs[i]) is Ended;
            assert(before[i] is Ended);
        }
        if client_built(before) {
            let i = choose|i: int| 0 <= i < before.len() && (#[trigger] before[i]) is ClientBuilt;
            assert(inputs[i] is ClientBuilt);
            if inputs.last() is LeaseAcquired {
                assert(inputs[i] is ClientBuilt && inputs[last] is LeaseAcquired);
            }
        }
        if client_built(inputs) && !(inputs.last() is ClientBuilt) {
            let i = choose|i: int| 0 <= i < inputs.len() && (#[trigger] inputs[i]) is ClientBuilt;
            assert(before[i] is ClientBuilt);
        }
        if acquired_after_client(before) {
            let (i, j) = choose|i: int, j: int|
                0 <= i < j < before.len() && (#[trigger] before[i]) is ClientBuilt && (
                #[trigger] before[j]) is LeaseAcquired;
            assert(inputs[i] is ClientBuilt && inputs[j] is LeaseAcquired);
            assert(before[i] is ClientBuilt);
        }
        if acquired_after_client(inputs) {
            let (i, j) = choose|i: int, j: int|
                0 <= i < j < inputs.len() && (#[trigger] inputs[i]) is ClientBuilt && (
                #[trigger] inputs[j]) is LeaseAcquired;
            assert(before[i] is ClientBuilt);
            if j < last {
                assert(before[i] is ClientBuilt && before[j] is LeaseAcquired);
            }
        }
    }
}

/// A process asks for the lease exactly once, when its client is there first. It starts
/// the controllers exactly once, when it gets the lease in standby. It returns exactly
/// where it has no client, where it cannot have the lease, and where something stops it.
pub proof fn lemma_actions(inputs: Seq<Input>, input: Input, action: Action)
    requires
        acts(action, phase_after(inputs), input),
    ensures
        action is RequestLease <==> input is ClientBuilt && !ended(inputs) && !client_built(inputs),
        action is StartControllers <==> input is LeaseAcquired && !ended(inputs) && client_built(
            inputs,
        ) && !acquired_after_client(inputs),
        action is Return <==> input is ClientFailed || input is LeaseFailed || input is Ended,
{
    lemma_phase_tells_what_happened(inputs);
}

/// What a process returns. Without a client, without the lease, and once it lost the
/// lease, it returns that error, and logs nothing. The end of a task and a signal are no
/// errors of the process, and a task that failed is logged with its error.
pub proof fn lemma_result(phase: Phase, input: Input, stop: Stop)
    requires
        acts(Action::Return(stop), phase, input),
    ensures
        stop.result is Err <==> input is ClientFailed || input is LeaseFailed || (
        input matches Input::Ended(event) && event is LeadershipEnded),
        stop.result is Err ==> stop.log is None,
        input matches Input::ClientFailed(e) ==> stop.result->Err_0@ == e@,
        input matches Input::LeaseFailed(e) ==> stop.result->Err_0@ == e@,
        input matches Input::Ended(Event::LeadershipEnded(Err(reason))) ==> stop.result->Err_0@
            == reason@,
        input matches Input::Ended(Event::LeadershipEnded(Ok(_))) ==> stop.result->Err_0@
            == "leader-election renewal stopped"@,
        input matches Input::Ended(Event::TaskEnded(task, end)) ==> {
            &&& stop.log is None <==> end is Finished
            &&& end matches TaskEnd::Failed(e) ==> stop.log matches Some(
                LogLine::Error { message, error },
            ) && error@ == e@ && text::ends_with(message@, " exited with error"@)
            &&& end matches TaskEnd::Panicked(e) ==> stop.log matches Some(
                LogLine::Error { message, error },
            ) && error@ == e@ && text::ends_with(message@, " task panicked"@)
        },
        input matches Input::Ended(Event::Shutdown) ==> stop.log matches Some(LogLine::Info(_)),
{
    if let Input::Ended(Event::TaskEnded(task, end)) = input {
        let (failed, panicked) = (" exited with error"@, " task panicked"@);
        let line = task.failed();
        assert(line.skip(line.len() - failed.len()) =~= failed);
        let line = task.panicked();
        assert(line.skip(line.len() - panicked.len()) =~= panicked);
    }
}

} // verus!
