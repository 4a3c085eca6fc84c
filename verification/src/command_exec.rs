//! What a client may ask of a command, and what is launched for it.
use vstd::prelude::*;
use vstd::string::*;
use crate::os_path::{OsPath, optional_path};

verus! {

/// How much of each output stream is kept where the client names no cap.
pub const DEFAULT_OUTPUT_BYTES_CAP: usize = 262_144;

/// How long a command may run where the client names no timeout.
pub const DEFAULT_TIMEOUT_MS: i64 = 60_000;

/// The JSON-RPC code for parameters that make no sense.
pub const INVALID_PARAMS: i64 = -32602;

/// The JSON-RPC code for what the peer does not offer.
pub const METHOD_NOT_FOUND: i64 = -32601;

/// The JSON-RPC code for what went wrong inside the peer.
pub const INTERNAL_ERROR: i64 = -32603;

/// Why a command gave no response.
#[derive(Debug, PartialEq, Eq)]
pub enum ExecError {
    InvalidParams(String),
    Unsupported(String),
    Timeout,
    Spawn(String),
    Internal(String),
}

/// What an `ExecError` says.
pub enum ExecErrorModel {
    InvalidParams(Seq<char>),
    Unsupported(Seq<char>),
    Timeout,
    Spawn(Seq<char>),
    Internal(Seq<char>),
}

impl View for ExecError {
    type V = ExecErrorModel;

    open spec fn view(&self) -> ExecErrorModel {
        match self {
            ExecError::InvalidParams(s) => ExecErrorModel::InvalidParams(s@),
            ExecError::Unsupported(s) => ExecErrorModel::Unsupported(s@),
            ExecError::Timeout => ExecErrorModel::Timeout,
            ExecError::Spawn(s) => ExecErrorModel::Spawn(s@),
            ExecError::Internal(s) => ExecErrorModel::Internal(s@),
        }
    }
}

impl ExecErrorModel {
    /// The text that a client reads.
    pub open spec fn text(self) -> Seq<char> {
        match self {
            ExecErrorModel::InvalidParams(s) => "invalid params: "@ + s,
            ExecErrorModel::Unsupported(s) => "unsupported: "@ + s,
            ExecErrorModel::Timeout => "command timed out"@,
            ExecErrorModel::Spawn(s) => "spawn failed: "@ + s,
            ExecErrorModel::Internal(s) => "internal error: "@ + s,
        }
    }

    /// The JSON-RPC code that a client reads.
    pub open spec fn code(self) -> int {
        match self {
            ExecErrorModel::InvalidParams(_) => INVALID_PARAMS as int,
            ExecErrorModel::Unsupported(_) => METHOD_NOT_FOUND as int,
            _ => INTERNAL_ERROR as int,
        }
    }
}

fn joined(first: &str, second: &str) -> (res: String)
    ensures
        res@ == first@ + second@,
{
    let mut text = first.to_owned();
    text.append(second);
    text
}

impl ExecError {
    /// The command could not be started, for the reason `err`.
    pub fn spawn(err: &str) -> (res: Self)
        ensures
            res@ == ExecErrorModel::Spawn(err@),
            res matches ExecError::Spawn(text) && text@ == err@,
    {
        ExecError::Spawn(err.to_owned())
    }

    /// The command could not be waited for, for the reason `err`.
    pub fn wait(err: &str) -> (res: Self)
        ensures
            res@ == ExecErrorModel::Internal("waiting on child: "@ + err@),
            res matches ExecError::Internal(text) && text@ == "waiting on child: "@ + err@,
    {
        ExecError::Internal(joined("waiting on child: ", err))
    }

    /// Something else failed, for the reason `err`.
    pub fn internal(err: &str) -> (res: Self)
        ensures
            res@ == ExecErrorModel::Internal(err@),
            res matches ExecError::Internal(text) && text@ == err@,
    {
        ExecError::Internal(err.to_owned())
    }

    /// The JSON-RPC code of this error.
    pub fn rpc_code(&self) -> (res: i64)
        ensures
            res == self@.code(),
            res == (match self {
                ExecError::InvalidParams(_) => -32602int,
                ExecError::Unsupported(_) => -32601int,
                _ => -32603int,
            }),
    {
        match self {
            ExecError::InvalidParams(_) => INVALID_PARAMS,
            ExecError::Unsupported(_) => METHOD_NOT_FOUND,
            ExecError::Timeout | ExecError::Spawn(_) | ExecError::Internal(_) => INTERNAL_ERROR,
        }
    }

    /// The text of this error.
    pub fn to_string(&self) -> (res: String)
        ensures
            res@ == self@.text(),
            match self {
                ExecError::InvalidParams(s) => res@ == "invalid params: "@ + s@,
                ExecError::Unsupported(s) => res@ == "unsupported: "@ + s@,
                ExecError::Timeout => res@ == "command timed out"@,
                ExecError::Spawn(s) => res@ == "spawn failed: "@ + s@,
                ExecError::Internal(s) => res@ == "internal error: "@ + s@,
            },
    {
        match self {
            ExecError::InvalidParams(s) => joined("invalid params: ", s.as_str()),
            ExecError::Unsupported(s) => joined("unsupported: ", s.as_str()),
            ExecError::Timeout => "command timed out".to_owned(),
            ExecError::Spawn(s) => joined("spawn failed: ", s.as_str()),
            ExecError::Internal(s) => joined("internal error: ", s.as_str()),
        }
    }
}

/// A command that a client asks for. `env` holds, in the order in which they
/// are walked, the variables to set and those to leave as they are.
pub struct CommandExecParams {
    pub command: Vec<String>,
    pub process_id: Option<String>,
    pub tty: bool,
    pub stream_stdin: bool,
    pub stream_stdout_stderr: bool,
    pub output_bytes_cap: Option<usize>,
    pub disable_output_cap: bool,
    pub disable_timeout: bool,
    pub timeout_ms: Option<i64>,
    pub cwd: Option<OsPath>,
    pub env: Option<Vec<(String, Option<String>)>>,
}

impl Default for CommandExecParams {
    fn default() -> (res: Self)
        ensures
            res.command@.len() == 0,
            res.process_id is None,
            !res.tty && !res.stream_stdin && !res.stream_stdout_stderr,
            res.output_bytes_cap is None && !res.disable_output_cap,
            res.timeout_ms is None && !res.disable_timeout,
            res.cwd is None,
            res.env is None,
    {
        CommandExecParams {
            command: Vec::new(),
            process_id: None,
            tty: false,
            stream_stdin: false,
            stream_stdout_stderr: false,
            output_bytes_cap: None,
            disable_output_cap: false,
            disable_timeout: false,
            timeout_ms: None,
            cwd: None,
            env: None,
        }
    }
}

/// What a command that ended left behind.
#[derive(Debug, PartialEq, Eq)]
pub struct CommandExecResponse {
    pub exit_code: i32,
    pub stdout: String,
    pub stderr: String,
}

/// Asks that a running command be ended.
pub struct CommandExecTerminateParams {
    pub process_id: String,
}

/// Why the limits of a command are refused, if they are.
pub open spec fn limits_refusal(params: CommandExecParams) -> Option<ExecErrorModel> {
    if params.disable_output_cap && params.output_bytes_cap is Some {
        Some(
            ExecErrorModel::InvalidParams(
                "disable_output_cap cannot be combined with output_bytes_cap"@,
            ),
        )
    } else if params.disable_timeout && params.timeout_ms is Some {
        Some(
            ExecErrorModel::InvalidParams("disable_timeout cannot be combined with timeout_ms"@),
        )
    } else {
        None
    }
}

/// Why a command is refused before anything is launched, if it is. The first
/// reason that holds, in this order, is the one that the client reads.
pub open spec fn refusal(params: CommandExecParams) -> Option<ExecErrorModel> {
    if params.command@.len() == 0 {
        Some(ExecErrorModel::InvalidParams("empty command argv"@))
    } else if params.tty {
        Some(ExecErrorModel::Unsupported("tty mode is not supported"@))
    } else if params.stream_stdin {
        Some(ExecErrorModel::Unsupported("stream_stdin is not supported"@))
    } else if params.stream_stdout_stderr {
        Some(ExecErrorModel::Unsupported("stream_stdout_stderr is not supported"@))
    } else {
        limits_refusal(params)
    }
}

/// What the error of a result says, if there is one.
pub open spec fn error_of<T>(res: Result<T, ExecError>) -> Option<ExecErrorModel> {
    match res {
        Ok(_) => None,
        Err(e) => Some(e@),
    }
}

/// Refuses what this peer does not offer.
pub fn validate_params(params: &CommandExecParams) -> (res: Result<(), ExecError>)
    ensures
        error_of(res) == refusal(*params),
        res is Ok <==> params.command@.len() > 0 && !params.tty && !params.stream_stdin
            && !params.stream_stdout_stderr && !(params.disable_output_cap
            && params.output_bytes_cap is Some) && !(params.disable_timeout
            && params.timeout_ms is Some),
        params.command@.len() == 0 ==> (res matches Err(ExecError::InvalidParams(text)) && text@
            == "empty command argv"@),
        params.command@.len() > 0 && params.tty ==> (res matches Err(ExecError::Unsupported(text))
            && text@ == "tty mode is not supported"@),
{
    if params.command.is_empty() {
        return Err(ExecError::InvalidParams("empty command argv".to_owned()));
    }
    if params.tty {
        return Err(ExecError::Unsupported("tty mode is not supported".to_owned()));
    }
    if params.stream_stdin {
        return Err(ExecError::Unsupported("stream_stdin is not supported".to_owned()));
    }
    if params.stream_stdout_stderr {
        return Err(ExecError::Unsupported("stream_stdout_stderr is not supported".to_owned()));
    }
    validate_limits(params)
}

/// Refuses limits that contradict each other.
pub fn validate_limits(params: &CommandExecParams) -> (res: Result<(), ExecError>)
    ensures
        error_of(res) == limits_refusal(*params),
        res is Ok <==> !(params.disable_output_cap && params.output_bytes_cap is Some) && !(
        params.disable_timeout && params.timeout_ms is Some),
        res matches Err(e) ==> e is InvalidParams,
{
    if params.disable_output_cap && params.output_bytes_cap.is_some() {
        return Err(
            ExecError::InvalidParams(
                "disable_output_cap cannot be combined with output_bytes_cap".to_owned(),
            ),
        );
    }
    if params.disable_timeout && params.timeout_ms.is_some() {
        return Err(
            ExecError::InvalidParams(
                "disable_timeout cannot be combined with timeout_ms".to_owned(),
            ),
        );
    }
    Ok(())
}

/// What a process is launched for.
#[derive(Clone, Copy, Debug, PartialEq, Eq, Structural)]
pub enum ProcessRole {
    Agent,
    ToolCommand,
}

/// What a standard stream of a process is connected to.
#[derive(Clone, Copy, Debug, PartialEq, Eq, Structural)]
pub enum StdioMode {
    Null,
    Piped,
    Inherit,
}

/// A process to launch.
pub struct ProcessSpec {
    pub role: ProcessRole,
    pub program: String,
    pub args: Vec<String>,
    pub cwd: Option<OsPath>,
    pub env: Vec<(String, String)>,
    pub env_clear: bool,
    pub stdin: StdioMode,
    pub stdout: StdioMode,
    pub stderr: StdioMode,
}

/// What a `ProcessSpec` says.
#[verifier::ext_equal]
pub struct ProcessSpecModel {
    pub role: ProcessRole,
    pub program: Seq<char>,
    pub args: Seq<Seq<char>>,
    pub cwd: Option<Seq<u8>>,
    pub env: Seq<(Seq<char>, Seq<char>)>,
    pub env_clear: bool,
    pub stdin: StdioMode,
    pub stdout: StdioMode,
    pub stderr: StdioMode,
}

/// The characters of each of some strings.
pub open spec fn texts(strings: Seq<String>) -> Seq<Seq<char>> {
    strings.map_values(|s: String| s@)
}

/// The characters of pairs of strings.
pub open spec fn text_pairs(pairs: Seq<(String, String)>) -> Seq<(Seq<char>, Seq<char>)> {
    pairs.map_values(|pair: (String, String)| (pair.0@, pair.1@))
}

impl View for ProcessSpec {
    type V = ProcessSpecModel;

    open spec fn view(&self) -> ProcessSpecModel {
        ProcessSpecModel {
            role: self.role,
            program: self.program@,
            args: texts(self.args@),
            cwd: optional_path(self.cwd),
            env: text_pairs(self.env@),
            env_clear: self.env_clear,
            stdin: self.stdin,
            stdout: self.stdout,
            stderr: self.stderr,
        }
    }
}

/// The variables among `entries` that have a value, in their order.
pub open spec fn valued(entries: Seq<(String, Option<String>)>) -> Seq<(Seq<char>, Seq<char>)>
    decreases entries.len(),
{
    if entries.len() == 0 {
        Seq::empty()
    } else {
        let before = valued(entries.drop_last());
        match entries.last().1 {
            Some(value) => before.push((entries.last().0@, value@)),
            None => before,
        }
    }
}

/// The variables that a command sets.
pub open spec fn overrides(params: CommandExecParams) -> Seq<(Seq<char>, Seq<char>)> {
    match params.env {
        Some(entries) => valued(entries@),
        None => Seq::empty(),
    }
}

/// Where no variable is named twice, what a command sets is each variable with a
/// value, once, and nothing else.
pub proof fn each_valued_variable_is_set_once(
    entries: Seq<(String, Option<String>)>,
    key: Seq<char>,
    value: Seq<char>,
)
    requires
        forall|i: int, j: int|
            0 <= i < j < entries.len() ==> (#[trigger] entries[i]).0@ != (#[trigger] entries[j]).0@,
    ensures
        valued(entries).contains((key, value)) <==> exists|i: int|
            0 <= i < entries.len() && (#[trigger] entries[i]).0@ == key && (
            entries[i].1 matches Some(found) && found@ == value),
        forall|i: int, j: int|
            0 <= i < j < valued(entries).len() ==> (#[trigger] valued(entries)[i]).0 != (
            #[trigger] valued(entries)[j]).0,
    decreases entries.len(),
{
    set_variables_come_from_entries(entries);
    if entries.len() > 0 {
        let fewer = entries.drop_last();
        let before = valued(fewer);
        let last = entries.last();
        assert forall|i: int, j: int| 0 <= i < j < fewer.len() implies (#[trigger] fewer[i]).0@ != (
        #[trigger] fewer[j]).0@ by {
            assert(fewer[i] == entries[i] && fewer[j] == entries[j]);
        }
        each_valued_variable_is_set_once(fewer, key, value);
        set_variables_come_from_entries(fewer);
        let all = valued(entries);
        assert(last == entries[entries.len() - 1]);
        assert forall|i: int, j: int| 0 <= i < j < all.len() implies (#[trigger] all[i]).0 != (
        #[trigger] all[j]).0 by {
            assert(all[i] == before[i]);
            if j < before.len() {
                assert(all[j] == before[j]);
            } else {
                let k = choose|k: int|
                    0 <= k < fewer.len() && (#[trigger] fewer[k]).0@ == before[i].0;
                assert(fewer[k] == entries[k]);
            }
        }
        if before.contains((key, value)) {
            let i = choose|i: int|
                0 <= i < fewer.len() && (#[trigger] fewer[i]).0@ == key && (
                fewer[i].1 matches Some(found) && found@ == value);
            assert(entries[i] == fewer[i]);
            let k = choose|k: int| 0 <= k < before.len() && before[k] == (key, value);
            assert(all[k] == (key, value));
        }
        if exists|i: int|
            0 <= i < entries.len() && (#[trigger] entries[i]).0@ == key && (
            entries[i].1 matches Some(found) && found@ == value) {
            let i = choose|i: int|
                0 <= i < entries.len() && (#[trigger] entries[i]).0@ == key && (
                entries[i].1 matches Some(found) && found@ == value);
            if i < fewer.len() {
                assert(fewer[i] == entries[i]);
                assert(before.contains((key, value)));
            } else {
                assert(all[all.len() - 1] == (key, value));
            }
        }
        if all.contains((key, value)) && !before.contains((key, value)) {
            let k = choose|k: int| 0 <= k < all.len() && all[k] == (key, value);
            if k < before.len() {
                assert(before[k] == (key, value));
            }
            assert(entries[entries.len() - 1].0@ == key);
        }
    }
}

proof fn set_variables_come_from_entries(entries: Seq<(String, Option<String>)>)
    ensures
        forall|i: int|
            0 <= i < valued(entries).len() ==> exists|k: int|
                0 <= k < entries.len() && (#[trigger] entries[k]).0@ == (
                #[trigger] valued(entries)[i]).0,
    decreases entries.len(),
{
    if entries.len() > 0 {
        let fewer = entries.drop_last();
        set_variables_come_from_entries(fewer);
        assert forall|i: int| 0 <= i < valued(entries).len() implies exists|k: int|
            0 <= k < entries.len() && (#[trigger] entries[k]).0@ == (
            #[trigger] valued(entries)[i]).0 by {
            if i < valued(fewer).len() {
                assert(valued(entries)[i] == valued(fewer)[i]);
                let k = choose|k: int|
                    0 <= k < fewer.len() && (#[trigger] fewer[k]).0@ == valued(fewer)[i].0;
                assert(entries[k] == fewer[k]);
            } else {
                assert(entries[entries.len() - 1].0@ == valued(entries)[i].0);
            }
        }
    }
}

/// The variables that `params` sets: those that have a value.
pub fn env_overrides(params: &CommandExecParams) -> (res: Vec<(String, String)>)
    ensures
        text_pairs(res@) == overrides(*params),
        params.env is None ==> res@.len() == 0,
        params.env matches Some(entries) ==> text_pairs(res@) == valued(entries@),
{
    let mut res: Vec<(String, String)> = Vec::new();
    assert(text_pairs(res@) =~= Seq::empty());
    if let Some(entries) = &params.env {
        let mut i: usize = 0;
        assert(entries@.take(0) =~= Seq::empty());
        while i < entries.len()
            invariant
                i <= entries@.len(),
                text_pairs(res@) == valued(entries@.take(i as int)),
            decreases entries@.len() - i,
        {
            let ghost before = res@;
            assert(entries@.take(i + 1).drop_last() =~= entries@.take(i as int));
            assert(entries@.take(i + 1).last() == entries@[i as int]);
            if let Some(value) = &entries[i].1 {
                res.push((entries[i].0.clone(), value.clone()));
                assert(text_pairs(res@) =~= text_pairs(before).push(
                    (entries@[i as int].0@, value@),
                ));
            }
            i += 1;
        }
        assert(entries@.take(entries@.len() as int) =~= entries@);
    }
    res
}

/// The process that a command becomes: its first word is the program, the
/// others are the arguments; it reads nothing, and both its outputs are piped.
pub open spec fn process_of(params: CommandExecParams) -> ProcessSpecModel {
    ProcessSpecModel {
        role: ProcessRole::ToolCommand,
        program: params.command@[0]@,
        args: texts(params.command@.skip(1)),
        cwd: optional_path(params.cwd),
        env: overrides(params),
        env_clear: false,
        stdin: StdioMode::Null,
        stdout: StdioMode::Piped,
        stderr: StdioMode::Piped,
    }
}

/// The process to launch for a command that is not empty.
pub fn process_spec(params: &CommandExecParams) -> (res: ProcessSpec)
    requires
        params.command@.len() > 0,
    ensures
        res@ == process_of(*params),
        res.role == ProcessRole::ToolCommand,
        res.program@ == params.command@[0]@,
        res.args@.len() == params.command@.len() - 1,
        forall|i: int|
            0 <= i < res.args@.len() ==> (#[trigger] res.args@[i])@ == params.command@[i + 1]@,
        params.cwd is None ==> res.cwd is None,
        params.cwd matches Some(path) ==> (res.cwd matches Some(cwd) && cwd.bytes@ == path.bytes@),
        params.env is None ==> res.env@.len() == 0,
        params.env matches Some(entries) ==> text_pairs(res.env@) == valued(entries@),
        !res.env_clear,
        res.stdin == StdioMode::Null,
        res.stdout == StdioMode::Piped && res.stderr == StdioMode::Piped,
{
    let mut args: Vec<String> = Vec::new();
    let mut i: usize = 1;
    while i < params.command.len()
        invariant
            1 <= i <= params.command@.len(),
            args@.len() == i - 1,
            forall|k: int| 0 <= k < i - 1 ==> #[trigger] args@[k] == params.command@[k + 1],
        decreases params.command@.len() - i,
    {
        args.push(params.command[i].clone());
        i += 1;
    }
    assert(args@ =~= params.command@.skip(1));
    let cwd = match &params.cwd {
        Some(path) => Some(path.clone()),
        None => None,
    };
    ProcessSpec {
        role: ProcessRole::ToolCommand,
        program: params.command[0].clone(),
        args,
        cwd,
        env: env_overrides(params),
        env_clear: false,
        stdin: StdioMode::Null,
        stdout: StdioMode::Piped,
        stderr: StdioMode::Piped,
    }
}

/// How many bytes of each output stream are kept.
pub open spec fn cap_of(params: CommandExecParams) -> usize {
    if params.disable_output_cap {
        usize::MAX
    } else {
        match params.output_bytes_cap {
            Some(cap) => cap,
            None => DEFAULT_OUTPUT_BYTES_CAP,
        }
    }
}

pub fn output_cap(params: &CommandExecParams) -> (res: usize)
    ensures
        res == cap_of(*params),
        params.disable_output_cap ==> res == usize::MAX,
        !params.disable_output_cap ==> match params.output_bytes_cap {
            Some(cap) => res == cap,
            None => res == 262_144,
        },
{
    if params.disable_output_cap {
        usize::MAX
    } else {
        match params.output_bytes_cap {
            Some(cap) => cap,
            None => DEFAULT_OUTPUT_BYTES_CAP,
        }
    }
}

/// How long, in milliseconds, a command may run; a negative timeout is none at
/// all to wait.
pub open spec fn timeout_of(params: CommandExecParams) -> Option<int> {
    if params.disable_timeout {
        None
    } else {
        let asked = match params.timeout_ms {
            Some(ms) => ms,
            None => DEFAULT_TIMEOUT_MS,
        };
        Some(
            if asked < 0 {
                0
            } else {
                asked as int
            },
        )
    }
}

/// How long, in milliseconds, a command may run; `None` for as long as it takes.
pub fn timeout_duration(params: &CommandExecParams) -> (res: Option<u64>)
    ensures
        match res {
            Some(ms) => timeout_of(*params) == Some(ms as int),
            None => timeout_of(*params) is None,
        },
        res is None <==> params.disable_timeout,
        !params.disable_timeout ==> match params.timeout_ms {
            Some(asked) => asked >= 0 ==> res->0 == asked,
            None => res->0 == 60_000,
        },
        !params.disable_timeout && (params.timeout_ms matches Some(asked) && asked < 0) ==> res->0
            == 0,
{
    if params.disable_timeout {
        None
    } else {
        let asked: i64 = match params.timeout_ms {
            Some(ms) => ms,
            None => DEFAULT_TIMEOUT_MS,
        };
        Some(
            if asked < 0 {
                0
            } else {
                asked as u64
            },
        )
    }
}

/// What a client may never combine is refused as invalid, and what this peer
/// does not offer as a method that is not there; nothing is refused otherwise.
pub proof fn refusals_have_their_codes(params: CommandExecParams)
    ensures
        refusal(params) matches Some(e) ==> e.code() == INVALID_PARAMS || e.code()
            == METHOD_NOT_FOUND,
        params.command@.len() > 0 && (params.tty || params.stream_stdin
            || params.stream_stdout_stderr) ==> (refusal(params) matches Some(e) && e.code()
            == METHOD_NOT_FOUND),
        refusal(params) is None <==> params.command@.len() > 0 && !params.tty
            && !params.stream_stdin && !params.stream_stdout_stderr && !(params.disable_output_cap
            && params.output_bytes_cap is Some) && !(params.disable_timeout
            && params.timeout_ms is Some),
{
}

/// A process is launched with the words of its command, each at its place, in the
/// working directory that was asked for.
pub proof fn processes_have_the_words_of_their_commands(params: CommandExecParams)
    requires
        params.command@.len() > 0,
    ensures
        seq![process_of(params).program] + process_of(params).args == texts(params.command@),
        params.cwd matches Some(path) ==> process_of(params).cwd == Some(path.bytes@),
        params.cwd is None ==> process_of(params).cwd is None,
{
    let words = texts(params.command@);
    let process = process_of(params);
    assert(seq![process.program] + process.args =~= words) by {
        assert forall|i: int| 0 < i < words.len() implies process.args[i - 1] == words[i] by {
            assert(params.command@.skip(1)[i - 1] == params.command@[i]);
        }
    }
}

/// A process keeps the environment that it inherits, whatever a command sets: a
/// variable that the command names no value for is left as it is. It reads
/// nothing, and both its outputs can be read.
pub proof fn processes_inherit_their_environment(params: CommandExecParams, key: Seq<char>)
    requires
        params.env matches Some(entries) ==> forall|i: int|
            0 <= i < entries@.len() && (#[trigger] entries@[i]).0@ == key ==> entries@[i].1 is None,
    ensures
        !process_of(params).env_clear,
        forall|i: int|
            0 <= i < process_of(params).env.len() ==> (#[trigger] process_of(params).env[i]).0
                != key,
        process_of(params).stdin == StdioMode::Null,
        process_of(params).stdout == StdioMode::Piped,
        process_of(params).stderr == StdioMode::Piped,
        process_of(params).role == ProcessRole::ToolCommand,
{
    if let Some(entries) = params.env {
        variables_without_a_value_are_not_set(entries@, key);
    }
}

proof fn variables_without_a_value_are_not_set(
    entries: Seq<(String, Option<String>)>,
    key: Seq<char>,
)
    requires
        forall|i: int|
            0 <= i < entries.len() && (#[trigger] entries[i]).0@ == key ==> entries[i].1 is None,
    ensures
        forall|i: int| 0 <= i < valued(entries).len() ==> (#[trigger] valued(entries)[i]).0 != key,
    decreases entries.len(),
{
    if entries.len() > 0 {
        let fewer = entries.drop_last();
        assert forall|i: int| 0 <= i < fewer.len() && (#[trigger] fewer[i]).0@ == key implies
            fewer[i].1 is None by {
            assert(fewer[i] == entries[i]);
        }
        variables_without_a_value_are_not_set(fewer, key);
        assert(entries.last() == entries[entries.len() - 1]);
        assert forall|i: int| 0 <= i < valued(entries).len() implies (
        #[trigger] valued(entries)[i]).0 != key by {
            if i < valued(fewer).len() {
                assert(valued(entries)[i] == valued(fewer)[i]);
            }
        }
    }
}

/// Variables are set in the order in which they are named: those of a list that
/// is named first go before those of a list that is named then.
pub proof fn variables_are_set_in_their_order(
    entries: Seq<(String, Option<String>)>,
    more: Seq<(String, Option<String>)>,
    name: String,
    value: String,
)
    ensures
        valued(entries + more) == valued(entries) + valued(more),
        valued(seq![(name, Some(value))]) == seq![(name@, value@)],
        valued(seq![(name, None::<String>)]).len() == 0,
    decreases more.len(),
{
    let none = Seq::<(String, Option<String>)>::empty();
    let set = seq![(name, Some(value))];
    let left = seq![(name, None::<String>)];
    assert(set.drop_last() =~= none && left.drop_last() =~= none);
    assert(valued(none) =~= Seq::<(Seq<char>, Seq<char>)>::empty());
    assert(set.last() == (name, Some(value)) && left.last() == (name, None::<String>));
    assert(valued(set) =~= seq![(name@, value@)]);
    if more.len() == 0 {
        assert(entries + more =~= entries);
        assert(valued(entries) + valued(more) =~= valued(entries));
    } else {
        variables_are_set_in_their_order(entries, more.drop_last(), name, value);
        assert((entries + more).drop_last() =~= entries + more.drop_last());
        assert((entries + more).last() == more.last());
        assert(valued(entries + more) =~= valued(entries) + valued(more));
    }
}

/// A command may write as much as the client says, without a limit where it says
/// so, and 256 KiB where it says nothing; it may run for as long as the client
/// says, without a limit where it says so, and a minute where it says nothing.
pub proof fn limits_are_what_the_client_says(params: CommandExecParams, cap: usize, ms: i64)
    ensures
        params.disable_output_cap ==> cap_of(params) == usize::MAX,
        !params.disable_output_cap && params.output_bytes_cap == Some(cap) ==> cap_of(params)
            == cap,
        !params.disable_output_cap && params.output_bytes_cap is None ==> cap_of(params) == 256
            * 1024,
        params.disable_timeout <==> timeout_of(params) is None,
        !params.disable_timeout && params.timeout_ms == Some(ms) && ms >= 0 ==> timeout_of(params)
            == Some(ms as int),
        !params.disable_timeout && params.timeout_ms == Some(ms) && ms < 0 ==> timeout_of(params)
            == Some(0int),
        !params.disable_timeout && params.timeout_ms is None ==> timeout_of(params) == Some(
            60 * 1000int,
        ),
{
}

/// Which error a client reads says which of its wishes was refused, and the
/// earlier of two reasons is the one that it reads.
pub proof fn refusals_say_what_was_refused(params: CommandExecParams)
    ensures
        params.command@.len() == 0 ==> refusal(params) == Some(
            ExecErrorModel::InvalidParams("empty command argv"@),
        ),
        params.command@.len() > 0 && params.tty ==> refusal(params) == Some(
            ExecErrorModel::Unsupported("tty mode is not supported"@),
        ),
        params.command@.len() > 0 && !params.tty && params.stream_stdin ==> refusal(params)
            == Some(ExecErrorModel::Unsupported("stream_stdin is not supported"@)),
        params.command@.len() > 0 && !params.tty && !params.stream_stdin
            && params.stream_stdout_stderr ==> refusal(params) == Some(
            ExecErrorModel::Unsupported("stream_stdout_stderr is not supported"@),
        ),
        params.disable_output_cap && params.output_bytes_cap is Some ==> limits_refusal(params)
            == Some(
            ExecErrorModel::InvalidParams(
                "disable_output_cap cannot be combined with output_bytes_cap"@,
            ),
        ),
        !(params.disable_output_cap && params.output_bytes_cap is Some) && params.disable_timeout
            && params.timeout_ms is Some ==> limits_refusal(params) == Some(
            ExecErrorModel::InvalidParams("disable_timeout cannot be combined with timeout_ms"@),
        ),
        params.command@.len() > 0 && !params.tty && !params.stream_stdin
            && !params.stream_stdout_stderr ==> refusal(params) == limits_refusal(params),
{
}

/// Errors have the JSON-RPC codes of their kinds.
pub proof fn errors_have_the_codes_of_their_kinds(e: ExecErrorModel)
    ensures
        e.code() == -32602 <==> e is InvalidParams,
        e.code() == -32601 <==> e is Unsupported,
        e.code() == -32603 <==> (e is Timeout || e is Spawn || e is Internal),
{
}

/// What strings, pairs and errors say is what they hold, each at its place.
pub proof fn strings_and_errors_say_what_they_hold(
    strings: Seq<String>,
    pairs: Seq<(String, String)>,
    i: int,
    refused: Result<(), ExecError>,
)
    ensures
        texts(strings).len() == strings.len(),
        0 <= i < strings.len() ==> texts(strings)[i] == strings[i]@,
        text_pairs(pairs).len() == pairs.len(),
        0 <= i < pairs.len() ==> text_pairs(pairs)[i] == (pairs[i].0@, pairs[i].1@),
        refused is Ok <==> error_of(refused) is None,
        refused matches Err(ExecError::InvalidParams(text)) ==> error_of(refused) == Some(
            ExecErrorModel::InvalidParams(text@),
        ),
        refused matches Err(ExecError::Unsupported(text)) ==> error_of(refused) == Some(
            ExecErrorModel::Unsupported(text@),
        ),
        refused matches Err(ExecError::Timeout) ==> error_of(refused) == Some(
            ExecErrorModel::Timeout,
        ),
        refused matches Err(ExecError::Spawn(text)) ==> error_of(refused) == Some(
            ExecErrorModel::Spawn(text@),
        ),
        refused matches Err(ExecError::Internal(text)) ==> error_of(refused) == Some(
            ExecErrorModel::Internal(text@),
        ),
{
}

} // verus!
