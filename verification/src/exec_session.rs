//! A command from the client's request to the response.
use vstd::prelude::*;
use vstd::utf8::{decode_utf8, valid_utf8};
use crate::capture::{PipeCapture, capture_keeps_the_beginning, captured, streamed};
use crate::command_exec::{
    CommandExecParams, CommandExecResponse, ExecError, ExecErrorModel, ProcessSpec, cap_of,
    error_of, output_cap, process_of, process_spec, refusal, timeout_duration, timeout_of,
    validate_params,
};
use crate::registry::{
    ExecRegistry, register_termination, registered, unregister_process, unregistered,
};
use crate::supervisor::{
    ChildExitModel, ExitModel, KillReason, SupervisorActionModel, SupervisorEventModel,
    SupervisorState, Watch, exit_model, supervised,
};
use crate::text::{decode_lossy, lossy_utf8, optional_text};

verus! {

/// A command that was accepted and is to be launched.
pub struct LaunchingCommand {
    params: CommandExecParams,
}

/// A command that runs.
pub struct RunningCommand {
    process_id: Option<String>,
    watch: Watch,
    cap: usize,
}

/// A command that ended, of which the output is still to come.
pub struct EndedCommand {
    exit: Result<Option<i32>, ExecError>,
}

/// What came of launching a command: why it failed or, where it did not, which
/// of the two output pipes the process has.
pub enum LaunchOutcome {
    Failed(String),
    Started { stdout: bool, stderr: bool },
}

/// What a `LaunchOutcome` says.
pub enum LaunchOutcomeModel {
    Failed(Seq<char>),
    Started { stdout: bool, stderr: bool },
}

impl View for LaunchOutcome {
    type V = LaunchOutcomeModel;

    open spec fn view(&self) -> LaunchOutcomeModel {
        match self {
            LaunchOutcome::Failed(err) => LaunchOutcomeModel::Failed(err@),
            LaunchOutcome::Started { stdout, stderr } => LaunchOutcomeModel::Started {
                stdout: *stdout,
                stderr: *stderr,
            },
        }
    }
}

/// The error of a launch, if it is one: it failed, or a pipe is missing.
pub open spec fn launch_error(outcome: LaunchOutcomeModel) -> Option<ExecErrorModel> {
    match outcome {
        LaunchOutcomeModel::Failed(err) => Some(ExecErrorModel::Spawn(err)),
        LaunchOutcomeModel::Started { stdout, stderr } => if !stdout {
            Some(ExecErrorModel::Internal("child has no stdout pipe"@))
        } else if !stderr {
            Some(ExecErrorModel::Internal("child has no stderr pipe"@))
        } else {
            None
        },
    }
}

/// What launching makes of the registry: a process that started is registered,
/// also where it then turns out to lack a pipe.
pub open spec fn registry_after_launch<H>(
    handles: Map<Seq<char>, H>,
    process_id: Option<Seq<char>>,
    handle: H,
    outcome: LaunchOutcomeModel,
) -> Map<Seq<char>, H> {
    match outcome {
        LaunchOutcomeModel::Failed(_) => handles,
        LaunchOutcomeModel::Started { .. } => registered(handles, process_id, handle),
    }
}

/// What a client reads of a command that ended.
#[verifier::ext_equal]
pub struct ResponseModel {
    pub exit_code: int,
    pub stdout: Seq<char>,
    pub stderr: Seq<char>,
}

impl View for CommandExecResponse {
    type V = ResponseModel;

    open spec fn view(&self) -> ResponseModel {
        ResponseModel {
            exit_code: self.exit_code as int,
            stdout: self.stdout@,
            stderr: self.stderr@,
        }
    }
}

/// What the response of a result says, if there is one.
pub open spec fn response_of(res: Result<CommandExecResponse, ExecError>) -> Option<
    ResponseModel,
> {
    match res {
        Ok(response) => Some(response@),
        Err(_) => None,
    }
}

/// The response to a command that ended with an exit code; -1 stands for none.
pub open spec fn response_to(
    code: Option<i32>,
    stdout: Seq<u8>,
    stderr: Seq<u8>,
) -> ResponseModel {
    ResponseModel {
        exit_code: match code {
            Some(c) => c as int,
            None => -1,
        },
        stdout: lossy_utf8(stdout),
        stderr: lossy_utf8(stderr),
    }
}

impl LaunchingCommand {
    /// What the client asked for.
    pub closed spec fn params(self) -> CommandExecParams {
        self.params
    }

    /// Accepts or refuses a command; one that is accepted comes with the process
    /// to launch.
    pub fn accept(params: CommandExecParams) -> (res: Result<
        (LaunchingCommand, ProcessSpec),
        ExecError,
    >)
        ensures
            error_of(res) == refusal(params),
            res matches Ok((command, process)) ==> command.params() == params && process@
                == process_of(params),
            res is Ok <==> params.command@.len() > 0 && !params.tty && !params.stream_stdin
                && !params.stream_stdout_stderr && !(params.disable_output_cap
                && params.output_bytes_cap is Some) && !(params.disable_timeout
                && params.timeout_ms is Some),
            res matches Ok((command, process)) ==> process.program@ == params.command@[0]@
                && process.args@.len() == params.command@.len() - 1 && !process.env_clear,
    {
        match validate_params(&params) {
            Ok(_) => {
                let process = process_spec(&params);
                Ok((LaunchingCommand { params }, process))
            },
            Err(e) => Err(e),
        }
    }

    /// Takes in what came of launching the process. `handle` is what asks the
    /// process to end; it is registered under the id that the client gave.
    pub fn launched<H>(
        self,
        registry: &mut ExecRegistry<H>,
        handle: H,
        outcome: LaunchOutcome,
    ) -> (res: Result<RunningCommand, ExecError>)
        ensures
            error_of(res) == launch_error(outcome@),
            final(registry)@ == registry_after_launch(
                old(registry)@,
                optional_text(self.params().process_id),
                handle,
                outcome@,
            ),
            res is Ok <==> outcome matches LaunchOutcome::Started { stdout: true, stderr: true },
            outcome matches LaunchOutcome::Failed(err) ==> (res matches Err(
                ExecError::Spawn(text),
            ) && text@ == err@ && final(registry)@ == old(registry)@),
            outcome is Started ==> final(registry)@ == (match self.params().process_id {
                Some(id) => old(registry)@.insert(id@, handle),
                None => old(registry)@,
            }),
            res matches Ok(running) ==> {
                &&& self.params().disable_timeout <==> running.watch().timeout_ms is None
                &&& !self.params().disable_timeout ==> match self.params().timeout_ms {
                    Some(asked) => asked >= 0 ==> running.watch().timeout_ms->0 == asked,
                    None => running.watch().timeout_ms->0 == 60_000,
                }
                &&& self.params().disable_output_cap ==> running.cap() == usize::MAX
                &&& !self.params().disable_output_cap ==> match self.params().output_bytes_cap {
                    Some(cap) => running.cap() == cap,
                    None => running.cap() == 262_144,
                }
            },
            res matches Ok(running) ==> {
                &&& running.process_id() == optional_text(self.params().process_id)
                &&& running.cap() == cap_of(self.params())
                &&& running.watch().terminable == (self.params().process_id is Some)
                &&& match running.watch().timeout_ms {
                    Some(ms) => timeout_of(self.params()) == Some(ms as int),
                    None => timeout_of(self.params()) is None,
                }
            },
    {
        let (stdout, stderr) = match outcome {
            LaunchOutcome::Failed(err) => return Err(ExecError::spawn(err.as_str())),
            LaunchOutcome::Started { stdout, stderr } => (stdout, stderr),
        };
        let cap = output_cap(&self.params);
        let timeout_ms = timeout_duration(&self.params);
        let process_id = self.params.process_id;
        let id = match &process_id {
            Some(id) => Some(id.as_str()),
            None => None,
        };
        let terminable = register_termination(registry, id, handle);
        if !stdout {
            return Err(ExecError::internal("child has no stdout pipe"));
        }
        if !stderr {
            return Err(ExecError::internal("child has no stderr pipe"));
        }
        Ok(RunningCommand { process_id, watch: Watch { timeout_ms, terminable }, cap })
    }
}

impl RunningCommand {
    /// The id that the client gave.
    pub closed spec fn process_id(self) -> Option<Seq<char>> {
        optional_text(self.process_id)
    }

    /// What to wait for.
    pub closed spec fn watch(self) -> Watch {
        self.watch
    }

    /// How much of each output stream is kept.
    pub closed spec fn cap(self) -> usize {
        self.cap
    }

    /// What the supervisor of the command waits for.
    pub fn supervision(&self) -> (res: Watch)
        ensures
            res == self.watch(),
    {
        self.watch
    }

    /// What captures one of the output streams.
    pub fn capture(&self) -> (res: PipeCapture)
        ensures
            res@ == crate::capture::fresh_capture(self.cap() as nat),
            res@.cap == self.cap() && res@.kept.len() == 0,
    {
        PipeCapture::new(self.cap)
    }

    /// Takes in how the command ended, and drops its handle.
    pub fn ended<H>(
        self,
        registry: &mut ExecRegistry<H>,
        exit: Result<Option<i32>, ExecError>,
    ) -> (res: EndedCommand)
        ensures
            final(registry)@ == unregistered(old(registry)@, self.process_id()),
            res.exit() == exit_model(exit),
            exit matches Ok(code) ==> res.exit() == ExitModel::Code(code),
            exit matches Err(e) ==> res.exit() == ExitModel::Failed(e@),
            self.process_id() matches Some(id) ==> final(registry)@ == old(registry)@.remove(id),
            self.process_id() is None ==> final(registry)@ == old(registry)@,
    {
        let id = match &self.process_id {
            Some(id) => Some(id.as_str()),
            None => None,
        };
        unregister_process(registry, id);
        EndedCommand { exit }
    }
}

impl EndedCommand {
    /// How the command ended.
    pub closed spec fn exit(self) -> ExitModel {
        exit_model(self.exit)
    }

    /// The response, now that the output is there.
    pub fn respond(self, stdout: Vec<u8>, stderr: Vec<u8>) -> (res: Result<
        CommandExecResponse,
        ExecError,
    >)
        ensures
            match self.exit() {
                ExitModel::Code(code) => response_of(res) == Some(
                    response_to(code, stdout@, stderr@),
                ),
                ExitModel::Failed(e) => error_of(res) == Some(e),
            },
            self.exit() matches ExitModel::Code(Some(code)) ==> (res matches Ok(response)
                && response.exit_code == code),
            self.exit() == ExitModel::Code(None) ==> (res matches Ok(response)
                && response.exit_code == -1),
            res matches Ok(response) ==> response.stdout@ == lossy_utf8(stdout@)
                && response.stderr@ == lossy_utf8(stderr@),
            res is Ok <==> self.exit() is Code,
            res matches Ok(response) ==> {
                &&& valid_utf8(stdout@) ==> response.stdout@ == decode_utf8(stdout@)
                &&& valid_utf8(stderr@) ==> response.stderr@ == decode_utf8(stderr@)
            },
    {
        match self.exit {
            Ok(code) => {
                let exit_code: i32 = match code {
                    Some(c) => c,
                    None => -1,
                };
                Ok(
                    CommandExecResponse {
                        exit_code,
                        stdout: decode_lossy(stdout.as_slice()),
                        stderr: decode_lossy(stderr.as_slice()),
                    },
                )
            },
            Err(e) => Err(e),
        }
    }
}

/// A command that started with both its pipes and then ended leaves the registry
/// without a handle of its id and otherwise as it was.
pub proof fn commands_clean_up_after_themselves<H>(
    handles: Map<Seq<char>, H>,
    process_id: Option<Seq<char>>,
    handle: H,
    outcome: LaunchOutcomeModel,
)
    requires
        launch_error(outcome) is None,
    ensures
        unregistered(registry_after_launch(handles, process_id, handle, outcome), process_id)
            == unregistered(handles, process_id),
{
    if let Some(id) = process_id {
        assert(handles.insert(id, handle).remove(id) =~= handles.remove(id));
    }
}

/// A command that could not be started leaves the registry as it was.
pub proof fn failed_launches_register_nothing<H>(
    handles: Map<Seq<char>, H>,
    process_id: Option<Seq<char>>,
    handle: H,
    err: Seq<char>,
)
    ensures
        registry_after_launch(handles, process_id, handle, LaunchOutcomeModel::Failed(err))
            == handles,
        launch_error(LaunchOutcomeModel::Failed(err)) == Some(ExecErrorModel::Spawn(err)),
{
}

/// What a client reads of an output stream is its beginning: however the stream
/// is cut into reads, all of it where it fits the cap of the command, and as much
/// as the cap where it does not.
pub proof fn responses_hold_the_beginning_of_the_output(
    params: CommandExecParams,
    code: Option<i32>,
    stdout: Seq<Seq<u8>>,
    stderr: Seq<Seq<u8>>,
)
    requires
        forall|i: int| 0 <= i < stdout.len() ==> (#[trigger] stdout[i]).len() > 0,
        forall|i: int| 0 <= i < stderr.len() ==> (#[trigger] stderr[i]).len() > 0,
    ensures
        ({
            let cap = cap_of(params) as nat;
            let response = response_to(
                code,
                captured(cap, stdout).kept,
                captured(cap, stderr).kept,
            );
            &&& streamed(stdout).len() <= cap ==> response.stdout == lossy_utf8(streamed(stdout))
            &&& streamed(stdout).len() > cap ==> response.stdout == lossy_utf8(
                streamed(stdout).take(cap as int),
            )
            &&& streamed(stderr).len() <= cap ==> response.stderr == lossy_utf8(streamed(stderr))
            &&& streamed(stderr).len() > cap ==> response.stderr == lossy_utf8(
                streamed(stderr).take(cap as int),
            )
        }),
{
    capture_keeps_the_beginning(cap_of(params) as nat, stdout);
    capture_keeps_the_beginning(cap_of(params) as nat, stderr);
}

/// A client reads the exit code that its command ended with, whatever it is, and
/// -1 where it ended without one; and it reads each output as its own.
pub proof fn responses_tell_the_exit_code(code: i32, stdout: Seq<u8>, stderr: Seq<u8>)
    ensures
        response_to(Some(code), stdout, stderr).exit_code == code,
        response_to(None, stdout, stderr).exit_code == -1,
        response_to(Some(code), stdout, stderr).stdout == lossy_utf8(stdout),
        response_to(Some(code), stdout, stderr).stderr == lossy_utf8(stderr),
        response_to(None, stdout, stderr).stdout == lossy_utf8(stdout),
        response_to(None, stdout, stderr).stderr == lossy_utf8(stderr),
{
}

/// Commands that ended with different exit codes get different responses: in
/// particular none that failed is told to have succeeded.
pub proof fn exit_codes_are_told_apart(
    code: i32,
    other: i32,
    stdout: Seq<u8>,
    stderr: Seq<u8>,
)
    requires
        code != other,
    ensures
        response_to(Some(code), stdout, stderr) != response_to(Some(other), stdout, stderr),
{
}

/// From the end of a process to what the client reads: a process that ends by
/// itself, or is ended on request, gives a response with its own exit code.
pub proof fn the_exit_code_reaches_the_client(
    watch: Watch,
    code: i32,
    stdout: Seq<u8>,
    stderr: Seq<u8>,
)
    ensures
        ({
            let ended = supervised(
                watch,
                SupervisorState::Watching,
                SupervisorEventModel::Exited(ChildExitModel::Code(Some(code))),
            ).1;
            &&& ended matches SupervisorActionModel::Finish(ExitModel::Code(told))
            &&& response_to(told, stdout, stderr).exit_code == code
        }),
        ({
            let ended = supervised(
                watch,
                SupervisorState::Reaping(KillReason::Requested),
                SupervisorEventModel::Exited(ChildExitModel::Code(Some(code))),
            ).1;
            &&& ended matches SupervisorActionModel::Finish(ExitModel::Code(told))
            &&& response_to(told, stdout, stderr).exit_code == code
        }),
{
}

/// A launch fails exactly where the process did not start or lacks a pipe, and
/// the error says which; one that started is registered under its id.
pub proof fn launches_fail_for_a_reason<H>(
    handles: Map<Seq<char>, H>,
    id: Seq<char>,
    handle: H,
    stdout: bool,
    stderr: bool,
)
    ensures
        ({
            let started = LaunchOutcomeModel::Started { stdout, stderr };
            &&& launch_error(started) is None <==> stdout && stderr
            &&& !stdout ==> launch_error(started) == Some(
                ExecErrorModel::Internal("child has no stdout pipe"@),
            )
            &&& stdout && !stderr ==> launch_error(started) == Some(
                ExecErrorModel::Internal("child has no stderr pipe"@),
            )
            &&& registry_after_launch(handles, Some(id), handle, started) == handles.insert(
                id,
                handle,
            )
            &&& registry_after_launch(handles, None, handle, started) == handles
        }),
{
}

} // verus!
