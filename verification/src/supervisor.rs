//! Watching over a running command.
use vstd::prelude::*;
use crate::command_exec::{ExecError, ExecErrorModel};

verus! {

/// What waiting for a command gave: its exit code, which a command that a
/// signal ended does not have, or why it could not be waited for.
pub enum ChildExit {
    Code(Option<i32>),
    WaitFailed(String),
}

/// What a `ChildExit` says.
pub enum ChildExitModel {
    Code(Option<i32>),
    WaitFailed(Seq<char>),
}

impl View for ChildExit {
    type V = ChildExitModel;

    open spec fn view(&self) -> ChildExitModel {
        match self {
            ChildExit::Code(code) => ChildExitModel::Code(*code),
            ChildExit::WaitFailed(err) => ChildExitModel::WaitFailed(err@),
        }
    }
}

/// How a command ended: with an exit code, if it has one, or with an error.
pub enum ExitModel {
    Code(Option<i32>),
    Failed(ExecErrorModel),
}

/// How the end of a command is told.
pub open spec fn exit_model(exit: Result<Option<i32>, ExecError>) -> ExitModel {
    match exit {
        Ok(code) => ExitModel::Code(code),
        Err(e) => ExitModel::Failed(e@),
    }
}

/// How a command ended, as far as waiting for it tells.
pub open spec fn waited(exit: ChildExitModel) -> ExitModel {
    match exit {
        ChildExitModel::Code(code) => ExitModel::Code(code),
        ChildExitModel::WaitFailed(err) => ExitModel::Failed(
            ExecErrorModel::Internal("waiting on child: "@ + err),
        ),
    }
}

fn wait_result(exit: ChildExit) -> (res: Result<Option<i32>, ExecError>)
    ensures
        exit_model(res) == waited(exit@),
{
    match exit {
        ChildExit::Code(code) => Ok(code),
        ChildExit::WaitFailed(err) => Err(ExecError::wait(err.as_str())),
    }
}

/// What a supervisor waits for: the end of the command and, as the limits of
/// the command say, a deadline and a request to end it.
#[derive(Clone, Copy, Debug, PartialEq, Eq, Structural)]
pub struct Watch {
    /// The milliseconds after which the deadline passes.
    pub timeout_ms: Option<u64>,
    /// Whether the command can be asked to end.
    pub terminable: bool,
}

/// Why a command was killed.
#[derive(Clone, Copy, Debug, PartialEq, Eq, Structural)]
pub enum KillReason {
    Requested,
    DeadlinePassed,
}

/// How far the supervision of a command has come.
#[derive(Clone, Copy, Debug, PartialEq, Eq, Structural)]
pub enum SupervisorState {
    /// The command runs.
    Watching,
    /// The command is being killed.
    Killing(KillReason),
    /// The command was killed and is waited for.
    Reaping(KillReason),
    /// The command ended.
    Ended,
}

/// What happens to a command.
pub enum SupervisorEvent {
    /// Waiting for it came to an end.
    Exited(ChildExit),
    /// Its deadline passed.
    DeadlinePassed,
    /// It was asked to end, or can no longer be asked to.
    TerminationRequested,
    /// Killing it was tried.
    KillReturned,
}

/// What a `SupervisorEvent` says.
pub enum SupervisorEventModel {
    Exited(ChildExitModel),
    DeadlinePassed,
    TerminationRequested,
    KillReturned,
}

impl View for SupervisorEvent {
    type V = SupervisorEventModel;

    open spec fn view(&self) -> SupervisorEventModel {
        match self {
            SupervisorEvent::Exited(exit) => SupervisorEventModel::Exited(exit@),
            SupervisorEvent::DeadlinePassed => SupervisorEventModel::DeadlinePassed,
            SupervisorEvent::TerminationRequested => SupervisorEventModel::TerminationRequested,
            SupervisorEvent::KillReturned => SupervisorEventModel::KillReturned,
        }
    }
}

/// What is to be done next with a command.
pub enum SupervisorAction {
    /// Wait for whatever comes first.
    Watch,
    /// Kill it.
    Kill,
    /// Wait for its end alone.
    Wait,
    /// Nothing: this is how it ended.
    Finish(Result<Option<i32>, ExecError>),
    /// Nothing: how it ended was told before.
    Idle,
}

/// What a `SupervisorAction` says.
pub enum SupervisorActionModel {
    Watch,
    Kill,
    Wait,
    Finish(ExitModel),
    Idle,
}

impl View for SupervisorAction {
    type V = SupervisorActionModel;

    open spec fn view(&self) -> SupervisorActionModel {
        match self {
            SupervisorAction::Watch => SupervisorActionModel::Watch,
            SupervisorAction::Kill => SupervisorActionModel::Kill,
            SupervisorAction::Wait => SupervisorActionModel::Wait,
            SupervisorAction::Finish(exit) => SupervisorActionModel::Finish(exit_model(*exit)),
            SupervisorAction::Idle => SupervisorActionModel::Idle,
        }
    }
}

/// How a command that was killed ended: past its deadline, whatever came of the
/// killing, and on request as waiting for it tells.
pub open spec fn reaped(reason: KillReason, exit: ChildExitModel) -> ExitModel {
    match reason {
        KillReason::DeadlinePassed => ExitModel::Failed(ExecErrorModel::Timeout),
        KillReason::Requested => waited(exit),
    }
}

/// One step of supervision. What was not waited for changes nothing.
pub open spec fn supervised(
    watch: Watch,
    state: SupervisorState,
    event: SupervisorEventModel,
) -> (SupervisorState, SupervisorActionModel) {
    match state {
        SupervisorState::Watching => match event {
            SupervisorEventModel::Exited(exit) => (
                SupervisorState::Ended,
                SupervisorActionModel::Finish(waited(exit)),
            ),
            SupervisorEventModel::DeadlinePassed => if watch.timeout_ms is Some {
                (
                    SupervisorState::Killing(KillReason::DeadlinePassed),
                    SupervisorActionModel::Kill,
                )
            } else {
                (state, SupervisorActionModel::Watch)
            },
            SupervisorEventModel::TerminationRequested => if watch.terminable {
                (SupervisorState::Killing(KillReason::Requested), SupervisorActionModel::Kill)
            } else {
                (state, SupervisorActionModel::Watch)
            },
            SupervisorEventModel::KillReturned => (state, SupervisorActionModel::Watch),
        },
        SupervisorState::Killing(reason) => match event {
            SupervisorEventModel::KillReturned => (
                SupervisorState::Reaping(reason),
                SupervisorActionModel::Wait,
            ),
            _ => (state, SupervisorActionModel::Kill),
        },
        SupervisorState::Reaping(reason) => match event {
            SupervisorEventModel::Exited(exit) => (
                SupervisorState::Ended,
                SupervisorActionModel::Finish(reaped(reason, exit)),
            ),
            _ => (state, SupervisorActionModel::Wait),
        },
        SupervisorState::Ended => (state, SupervisorActionModel::Idle),
    }
}

/// Watches over one command.
pub struct Supervisor {
    watch: Watch,
    state: SupervisorState,
}

impl Supervisor {
    /// What this waits for.
    pub closed spec fn watch(self) -> Watch {
        self.watch
    }

    /// How far this has come.
    pub closed spec fn state(self) -> SupervisorState {
        self.state
    }

    /// Watches over a command that runs.
    pub fn new(watch: Watch) -> (res: Self)
        ensures
            res.watch() == watch,
            res.state() == SupervisorState::Watching,
    {
        Supervisor { watch, state: SupervisorState::Watching }
    }

    /// Takes in what happened and says what is to be done.
    pub fn step(&mut self, event: SupervisorEvent) -> (res: SupervisorAction)
        ensures
            final(self).watch() == old(self).watch(),
            (final(self).state(), res@) == supervised(
                old(self).watch(),
                old(self).state(),
                event@,
            ),
            old(self).state() == SupervisorState::Watching ==> (event
                matches SupervisorEvent::Exited(ChildExit::Code(code)) ==> (res
                matches SupervisorAction::Finish(Ok(told)) && told == code)),
            old(self).state() == SupervisorState::Reaping(KillReason::Requested) ==> (event
                matches SupervisorEvent::Exited(ChildExit::Code(code)) ==> (res
                matches SupervisorAction::Finish(Ok(told)) && told == code)),
            old(self).state() == SupervisorState::Reaping(KillReason::DeadlinePassed) && (
            event is Exited) ==> (res matches SupervisorAction::Finish(Err(ExecError::Timeout))),
    {
        match self.state {
            SupervisorState::Watching => match event {
                SupervisorEvent::Exited(exit) => {
                    self.state = SupervisorState::Ended;
                    SupervisorAction::Finish(wait_result(exit))
                },
                SupervisorEvent::DeadlinePassed => {
                    if self.watch.timeout_ms.is_some() {
                        self.state = SupervisorState::Killing(KillReason::DeadlinePassed);
                        SupervisorAction::Kill
                    } else {
                        SupervisorAction::Watch
                    }
                },
                SupervisorEvent::TerminationRequested => {
                    if self.watch.terminable {
                        self.state = SupervisorState::Killing(KillReason::Requested);
                        SupervisorAction::Kill
                    } else {
                        SupervisorAction::Watch
                    }
                },
                SupervisorEvent::KillReturned => SupervisorAction::Watch,
            },
            SupervisorState::Killing(reason) => match event {
                SupervisorEvent::KillReturned => {
                    self.state = SupervisorState::Reaping(reason);
                    SupervisorAction::Wait
                },
                _ => SupervisorAction::Kill,
            },
            SupervisorState::Reaping(reason) => match event {
                SupervisorEvent::Exited(exit) => {
                    self.state = SupervisorState::Ended;
                    match reason {
                        KillReason::DeadlinePassed => {
                            SupervisorAction::Finish(Err(ExecError::Timeout))
                        },
                        KillReason::Requested => SupervisorAction::Finish(wait_result(exit)),
                    }
                },
                _ => SupervisorAction::Wait,
            },
            SupervisorState::Ended => SupervisorAction::Idle,
        }
    }
}

/// The state that a sequence of events leads to.
pub open spec fn state_after(
    watch: Watch,
    state: SupervisorState,
    events: Seq<SupervisorEventModel>,
) -> SupervisorState
    decreases events.len(),
{
    if events.len() == 0 {
        state
    } else {
        supervised(watch, state_after(watch, state, events.drop_last()), events.last()).0
    }
}

/// What is to be done after a sequence of events, the last of which is `event`.
pub open spec fn action_after(
    watch: Watch,
    events: Seq<SupervisorEventModel>,
    event: SupervisorEventModel,
) -> SupervisorActionModel {
    supervised(watch, state_after(watch, SupervisorState::Watching, events), event).1
}

/// Whether a state can come of a command that was killed for `reason`.
pub open spec fn killed_for(state: SupervisorState, reason: KillReason) -> bool {
    ||| state == SupervisorState::Killing(reason)
    ||| state == SupervisorState::Reaping(reason)
    ||| state == SupervisorState::Ended
}

proof fn killed_commands_stay_killed(
    watch: Watch,
    state: SupervisorState,
    reason: KillReason,
    events: Seq<SupervisorEventModel>,
)
    requires
        killed_for(state, reason),
    ensures
        killed_for(state_after(watch, state, events), reason),
    decreases events.len(),
{
    if events.len() > 0 {
        killed_commands_stay_killed(watch, state, reason, events.drop_last());
    }
}

/// A command whose deadline passed while it ran is killed, is waited for and ends
/// with a timeout and with nothing else, whatever came of killing it and of
/// waiting for it.
pub proof fn a_passed_deadline_is_a_timeout(
    watch: Watch,
    events: Seq<SupervisorEventModel>,
    event: SupervisorEventModel,
    child: ChildExitModel,
)
    requires
        watch.timeout_ms is Some,
    ensures
        ({
            let (killing, first) = supervised(
                watch,
                SupervisorState::Watching,
                SupervisorEventModel::DeadlinePassed,
            );
            let (reaping, second) = supervised(watch, killing, SupervisorEventModel::KillReturned);
            &&& first == SupervisorActionModel::Kill
            &&& second == SupervisorActionModel::Wait
            &&& supervised(watch, reaping, SupervisorEventModel::Exited(child)).1
                == SupervisorActionModel::Finish(ExitModel::Failed(ExecErrorModel::Timeout))
            &&& supervised(watch, state_after(watch, killing, events), event).1
                matches SupervisorActionModel::Finish(exit) ==> exit == ExitModel::Failed(
                ExecErrorModel::Timeout,
            )
        }),
{
    killed_commands_stay_killed(
        watch,
        SupervisorState::Killing(KillReason::DeadlinePassed),
        KillReason::DeadlinePassed,
        events,
    );
}

/// A command that was asked to end is killed, is waited for and ends as waiting
/// for it tells.
pub proof fn a_request_ends_the_command(
    watch: Watch,
    events: Seq<SupervisorEventModel>,
    event: SupervisorEventModel,
    child: ChildExitModel,
)
    requires
        watch.terminable,
    ensures
        ({
            let (killing, first) = supervised(
                watch,
                SupervisorState::Watching,
                SupervisorEventModel::TerminationRequested,
            );
            let (reaping, second) = supervised(watch, killing, SupervisorEventModel::KillReturned);
            &&& first == SupervisorActionModel::Kill
            &&& second == SupervisorActionModel::Wait
            &&& supervised(watch, reaping, SupervisorEventModel::Exited(child)).1
                == SupervisorActionModel::Finish(waited(child))
            &&& supervised(watch, state_after(watch, killing, events), event).1
                matches SupervisorActionModel::Finish(exit) ==> (event
                matches SupervisorEventModel::Exited(last) && exit == waited(last))
        }),
{
    killed_commands_stay_killed(
        watch,
        SupervisorState::Killing(KillReason::Requested),
        KillReason::Requested,
        events,
    );
}

proof fn unbounded_commands_are_only_waited_for(
    watch: Watch,
    events: Seq<SupervisorEventModel>,
)
    requires
        watch.timeout_ms is None,
        !watch.terminable,
    ensures
        ({
            let state = state_after(watch, SupervisorState::Watching, events);
            state == SupervisorState::Watching || state == SupervisorState::Ended
        }),
    decreases events.len(),
{
    if events.len() > 0 {
        unbounded_commands_are_only_waited_for(watch, events.drop_last());
    }
}

/// A command with neither a deadline nor a way to ask it to end is never killed
/// and ends as waiting for it tells.
pub proof fn without_limits_a_command_runs_to_its_end(
    watch: Watch,
    events: Seq<SupervisorEventModel>,
    event: SupervisorEventModel,
)
    requires
        watch.timeout_ms is None,
        !watch.terminable,
    ensures
        action_after(watch, events, event) != SupervisorActionModel::Kill,
        action_after(watch, events, event) matches SupervisorActionModel::Finish(exit) ==> (event
            matches SupervisorEventModel::Exited(child) && exit == waited(child)),
{
    unbounded_commands_are_only_waited_for(watch, events);
}

/// How a command ended is told once.
pub proof fn the_end_is_told_once(
    watch: Watch,
    state: SupervisorState,
    event: SupervisorEventModel,
    events: Seq<SupervisorEventModel>,
    later: SupervisorEventModel,
)
    requires
        supervised(watch, state, event).1 is Finish,
    ensures
        supervised(
            watch,
            state_after(watch, supervised(watch, state, event).0, events),
            later,
        ).1 == SupervisorActionModel::Idle,
{
    stays_ended(watch, events);
}

proof fn stays_ended(watch: Watch, events: Seq<SupervisorEventModel>)
    ensures
        state_after(watch, SupervisorState::Ended, events) == SupervisorState::Ended,
    decreases events.len(),
{
    if events.len() > 0 {
        stays_ended(watch, events.drop_last());
    }
}

/// How a command ended is what waiting for it tells: its exit code, whatever it
/// is, or why it could not be waited for.
pub proof fn the_end_is_what_waiting_tells(code: Option<i32>, err: Seq<char>)
    ensures
        waited(ChildExitModel::Code(code)) == ExitModel::Code(code),
        waited(ChildExitModel::WaitFailed(err)) == ExitModel::Failed(
            ExecErrorModel::Internal("waiting on child: "@ + err),
        ),
        exit_model(Ok(code)) == ExitModel::Code(code),
{
}

/// A command that ends by itself is told to have ended as waiting for it tells,
/// and is not killed.
pub proof fn commands_that_end_are_not_killed(watch: Watch, code: Option<i32>, err: Seq<char>)
    ensures
        supervised(
            watch,
            SupervisorState::Watching,
            SupervisorEventModel::Exited(ChildExitModel::Code(code)),
        ) == (SupervisorState::Ended, SupervisorActionModel::Finish(ExitModel::Code(code))),
        supervised(
            watch,
            SupervisorState::Watching,
            SupervisorEventModel::Exited(ChildExitModel::WaitFailed(err)),
        ) == (
            SupervisorState::Ended,
            SupervisorActionModel::Finish(
                ExitModel::Failed(ExecErrorModel::Internal("waiting on child: "@ + err)),
            ),
        ),
{
}

/// A command that was killed on request is told to have ended with its own exit
/// code, and one that was killed past its deadline with a timeout.
pub proof fn killed_commands_end_by_their_reason(watch: Watch, code: Option<i32>)
    ensures
        supervised(
            watch,
            SupervisorState::Reaping(KillReason::Requested),
            SupervisorEventModel::Exited(ChildExitModel::Code(code)),
        ).1 == SupervisorActionModel::Finish(ExitModel::Code(code)),
        supervised(
            watch,
            SupervisorState::Reaping(KillReason::DeadlinePassed),
            SupervisorEventModel::Exited(ChildExitModel::Code(code)),
        ).1 == SupervisorActionModel::Finish(ExitModel::Failed(ExecErrorModel::Timeout)),
{
}

/// A command is killed for nothing but its deadline or a request, and for these
/// only where it has a deadline or can be asked.
pub proof fn commands_are_killed_for_a_reason(watch: Watch, event: SupervisorEventModel)
    ensures
        supervised(watch, SupervisorState::Watching, event).1 is Kill <==> (
        event is DeadlinePassed && watch.timeout_ms is Some) || (event is TerminationRequested
            && watch.terminable),
        supervised(watch, SupervisorState::Watching, event).1 is Finish <==> event is Exited,
        supervised(watch, SupervisorState::Watching, event).1 is Watch ==> supervised(
            watch,
            SupervisorState::Watching,
            event,
        ).0 == SupervisorState::Watching,
{
}

/// Events and actions say what they hold.
pub proof fn events_and_actions_say_what_they_hold(event: SupervisorEvent, action: SupervisorAction)
    ensures
        event matches SupervisorEvent::Exited(ChildExit::Code(code)) ==> event@
            == SupervisorEventModel::Exited(ChildExitModel::Code(code)),
        event matches SupervisorEvent::Exited(ChildExit::WaitFailed(err)) ==> event@
            == SupervisorEventModel::Exited(ChildExitModel::WaitFailed(err@)),
        event is DeadlinePassed <==> event@ is DeadlinePassed,
        event is TerminationRequested <==> event@ is TerminationRequested,
        event is KillReturned <==> event@ is KillReturned,
        action is Watch <==> action@ is Watch,
        action is Kill <==> action@ is Kill,
        action is Wait <==> action@ is Wait,
        action is Idle <==> action@ is Idle,
        action matches SupervisorAction::Finish(Ok(code)) ==> action@
            == SupervisorActionModel::Finish(ExitModel::Code(code)),
        action matches SupervisorAction::Finish(Err(e)) ==> action@
            == SupervisorActionModel::Finish(ExitModel::Failed(e@)),
{
}

/// A command that is being killed is killed before it is waited for, and waited
/// for before its end is told.
pub proof fn killing_comes_before_waiting(watch: Watch, reason: KillReason, event: SupervisorEventModel)
    ensures
        ({
            let (next, action) = supervised(watch, SupervisorState::Killing(reason), event);
            if event is KillReturned {
                next == SupervisorState::Reaping(reason) && action is Wait
            } else {
                next == SupervisorState::Killing(reason) && action is Kill
            }
        }),
        !(event is Exited) ==> supervised(watch, SupervisorState::Reaping(reason), event) == (
            SupervisorState::Reaping(reason),
            SupervisorActionModel::Wait,
        ),
{
}

} // verus!
