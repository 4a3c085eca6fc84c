//! Rows of the thread index, and the threads that clients see.
use vstd::prelude::*;
use crate::os_path::{OsPath, optional_path};
use crate::text::{lossy_utf8, optional_text};

verus! {

/// The version that threads of this bridge carry.
pub const CLI_VERSION: &'static str = "alleycat-amp-bridge/0.1.0";

/// The file in the bridge's home directory that the index is kept in.
pub const INDEX_FILE_NAME: &'static str = "threads.json";

/// What ties a row of the index to a thread of amp.
#[derive(Debug, Clone, PartialEq, Eq)]
pub struct AmpSessionRef {
    pub amp_thread_id: Option<String>,
    pub amp_thread_path: Option<OsPath>,
    pub model: Option<String>,
    pub reasoning_effort: Option<String>,
}

/// What an `AmpSessionRef` says.
#[verifier::ext_equal]
pub struct SessionRefModel {
    pub amp_thread_id: Option<Seq<char>>,
    pub amp_thread_path: Option<Seq<u8>>,
    pub model: Option<Seq<char>>,
    pub reasoning_effort: Option<Seq<char>>,
}

impl View for AmpSessionRef {
    type V = SessionRefModel;

    open spec fn view(&self) -> SessionRefModel {
        SessionRefModel {
            amp_thread_id: optional_text(self.amp_thread_id),
            amp_thread_path: optional_path(self.amp_thread_path),
            model: optional_text(self.model),
            reasoning_effort: optional_text(self.reasoning_effort),
        }
    }
}

/// What started a thread.
#[derive(Clone, Copy, Debug, PartialEq, Eq, Structural)]
pub enum ThreadSourceKind {
    Cli,
    VsCode,
    Exec,
    AppServer,
    SubAgent,
    SubAgentReview,
    SubAgentCompact,
    SubAgentThreadSpawn,
    SubAgentOther,
    Unknown,
}

/// What a client is told to have started a thread.
#[derive(Clone, Copy, Debug, PartialEq, Eq, Structural)]
pub enum SessionSource {
    Cli,
    VsCode,
    Exec,
    AppServer,
}

/// Whether the bridge has a thread in memory.
#[derive(Clone, Copy, Debug, PartialEq, Eq, Structural)]
pub enum ThreadStatus {
    NotLoaded,
    Idle,
    SystemError,
    Active,
}

/// A row of the thread index, with what a bridge adds to it.
pub struct CoreIndexEntry<M> {
    pub thread_id: String,
    pub cwd: String,
    pub name: Option<String>,
    pub preview: String,
    pub created_at: i64,
    pub updated_at: i64,
    pub archived: bool,
    pub forked_from_id: Option<String>,
    pub model_provider: String,
    pub source: ThreadSourceKind,
    pub metadata: M,
}

pub type IndexEntry = CoreIndexEntry<AmpSessionRef>;

/// What a row of the index says.
#[verifier::ext_equal]
pub struct EntryModel {
    pub thread_id: Seq<char>,
    pub cwd: Seq<char>,
    pub name: Option<Seq<char>>,
    pub preview: Seq<char>,
    pub created_at: int,
    pub updated_at: int,
    pub archived: bool,
    pub forked_from_id: Option<Seq<char>>,
    pub model_provider: Seq<char>,
    pub source: ThreadSourceKind,
    pub metadata: SessionRefModel,
}

impl View for CoreIndexEntry<AmpSessionRef> {
    type V = EntryModel;

    open spec fn view(&self) -> EntryModel {
        EntryModel {
            thread_id: self.thread_id@,
            cwd: self.cwd@,
            name: optional_text(self.name),
            preview: self.preview@,
            created_at: self.created_at as int,
            updated_at: self.updated_at as int,
            archived: self.archived,
            forked_from_id: optional_text(self.forked_from_id),
            model_provider: self.model_provider@,
            source: self.source,
            metadata: self.metadata@,
        }
    }
}

/// The state of the git repository around a directory.
#[derive(Debug, PartialEq, Eq)]
pub struct GitInfo {
    pub sha: Option<String>,
    pub branch: Option<String>,
    pub origin_url: Option<String>,
}

/// One exchange within a thread.
pub struct Turn {
    pub id: String,
}

/// A thread as clients see it.
pub struct Thread {
    pub id: String,
    pub session_id: String,
    pub forked_from_id: Option<String>,
    pub preview: String,
    pub ephemeral: bool,
    pub model_provider: String,
    pub created_at: i64,
    pub updated_at: i64,
    pub status: ThreadStatus,
    pub path: Option<String>,
    pub cwd: String,
    pub cli_version: String,
    pub source: SessionSource,
    pub thread_source: Option<String>,
    pub agent_nickname: Option<String>,
    pub agent_role: Option<String>,
    pub git_info: Option<GitInfo>,
    pub name: Option<String>,
    pub turns: Vec<Turn>,
}

/// What a thread says.
#[verifier::ext_equal]
pub struct ThreadModel {
    pub id: Seq<char>,
    pub session_id: Seq<char>,
    pub forked_from_id: Option<Seq<char>>,
    pub preview: Seq<char>,
    pub ephemeral: bool,
    pub model_provider: Seq<char>,
    pub created_at: int,
    pub updated_at: int,
    pub status: ThreadStatus,
    pub path: Option<Seq<char>>,
    pub cwd: Seq<char>,
    pub cli_version: Seq<char>,
    pub source: SessionSource,
    pub thread_source: Option<Seq<char>>,
    pub agent_nickname: Option<Seq<char>>,
    pub agent_role: Option<Seq<char>>,
    pub git_info: Option<GitInfo>,
    pub name: Option<Seq<char>>,
    pub turns: Seq<Turn>,
}

impl View for Thread {
    type V = ThreadModel;

    open spec fn view(&self) -> ThreadModel {
        ThreadModel {
            id: self.id@,
            session_id: self.session_id@,
            forked_from_id: optional_text(self.forked_from_id),
            preview: self.preview@,
            ephemeral: self.ephemeral,
            model_provider: self.model_provider@,
            created_at: self.created_at as int,
            updated_at: self.updated_at as int,
            status: self.status,
            path: optional_text(self.path),
            cwd: self.cwd@,
            cli_version: self.cli_version@,
            source: self.source,
            thread_source: optional_text(self.thread_source),
            agent_nickname: optional_text(self.agent_nickname),
            agent_role: optional_text(self.agent_role),
            git_info: self.git_info,
            name: optional_text(self.name),
            turns: self.turns@,
        }
    }
}

/// What a client is told of what started a thread: the four sources that
/// clients know stay as they are, and any other becomes the app server.
pub open spec fn session_source_of(kind: ThreadSourceKind) -> SessionSource {
    match kind {
        ThreadSourceKind::Cli => SessionSource::Cli,
        ThreadSourceKind::VsCode => SessionSource::VsCode,
        ThreadSourceKind::Exec => SessionSource::Exec,
        _ => SessionSource::AppServer,
    }
}

pub fn source_kind_to_session_source(kind: ThreadSourceKind) -> (res: SessionSource)
    ensures
        res == session_source_of(kind),
        res == SessionSource::Cli <==> kind == ThreadSourceKind::Cli,
        res == SessionSource::VsCode <==> kind == ThreadSourceKind::VsCode,
        res == SessionSource::Exec <==> kind == ThreadSourceKind::Exec,
{
    match kind {
        ThreadSourceKind::Cli => SessionSource::Cli,
        ThreadSourceKind::VsCode => SessionSource::VsCode,
        ThreadSourceKind::Exec => SessionSource::Exec,
        ThreadSourceKind::AppServer => SessionSource::AppServer,
        _ => SessionSource::AppServer,
    }
}

/// The thread that a row of the index stands for. It is not loaded, so it has
/// no turns; its session is amp's thread where the row names one, and the row
/// itself where it does not.
pub open spec fn thread_of(entry: EntryModel, git_info: Option<GitInfo>) -> ThreadModel {
    ThreadModel {
        id: entry.thread_id,
        session_id: match entry.metadata.amp_thread_id {
            Some(id) => id,
            None => entry.thread_id,
        },
        forked_from_id: entry.forked_from_id,
        preview: entry.preview,
        ephemeral: false,
        model_provider: entry.model_provider,
        created_at: entry.created_at,
        updated_at: entry.updated_at,
        status: ThreadStatus::NotLoaded,
        path: match entry.metadata.amp_thread_path {
            Some(path) => Some(lossy_utf8(path)),
            None => None,
        },
        cwd: entry.cwd,
        cli_version: CLI_VERSION@,
        source: session_source_of(entry.source),
        thread_source: None,
        agent_nickname: None,
        agent_role: None,
        git_info,
        name: entry.name,
        turns: Seq::empty(),
    }
}

fn copy_text(text: &Option<String>) -> (res: Option<String>)
    ensures
        optional_text(res) == optional_text(*text),
{
    match text {
        Some(s) => Some(s.clone()),
        None => None,
    }
}

/// Turns a row of the index into the thread that clients see, with the state of
/// the git repository around the row's working directory.
pub fn entry_to_thread(entry: &IndexEntry, git_info: Option<GitInfo>) -> (res: Thread)
    ensures
        res@ == thread_of(entry@, git_info),
        res.id@ == entry.thread_id@,
        entry.metadata.amp_thread_id matches Some(id) ==> res.session_id@ == id@,
        entry.metadata.amp_thread_id is None ==> res.session_id@ == entry.thread_id@,
        optional_text(res.forked_from_id) == optional_text(entry.forked_from_id),
        res.preview@ == entry.preview@,
        !res.ephemeral,
        res.model_provider@ == entry.model_provider@,
        res.created_at == entry.created_at,
        res.updated_at == entry.updated_at,
        res.status == ThreadStatus::NotLoaded,
        entry.metadata.amp_thread_path matches Some(path) ==> (res.path matches Some(shown)
            && shown@ == lossy_utf8(path.bytes@)),
        entry.metadata.amp_thread_path is None ==> res.path is None,
        res.cwd@ == entry.cwd@,
        res.cli_version@ == "alleycat-amp-bridge/0.1.0"@,
        res.source == SessionSource::Cli <==> entry.source == ThreadSourceKind::Cli,
        res.source == SessionSource::VsCode <==> entry.source == ThreadSourceKind::VsCode,
        res.source == SessionSource::Exec <==> entry.source == ThreadSourceKind::Exec,
        res.thread_source is None && res.agent_nickname is None && res.agent_role is None,
        res.git_info == git_info,
        optional_text(res.name) == optional_text(entry.name),
        res.turns@.len() == 0,
{
    Thread {
        id: entry.thread_id.clone(),
        session_id: match &entry.metadata.amp_thread_id {
            Some(id) => id.clone(),
            None => entry.thread_id.clone(),
        },
        forked_from_id: copy_text(&entry.forked_from_id),
        preview: entry.preview.clone(),
        ephemeral: false,
        model_provider: entry.model_provider.clone(),
        created_at: entry.created_at,
        updated_at: entry.updated_at,
        status: ThreadStatus::NotLoaded,
        path: match &entry.metadata.amp_thread_path {
            Some(path) => Some(path.to_text()),
            None => None,
        },
        cwd: entry.cwd.clone(),
        cli_version: CLI_VERSION.to_owned(),
        source: source_kind_to_session_source(entry.source),
        thread_source: None,
        agent_nickname: None,
        agent_role: None,
        git_info,
        name: copy_text(&entry.name),
        turns: Vec::new(),
    }
}

/// A thread carries over what its row tells: its id, times, directory, name,
/// preview, provider and where it was forked from.
pub proof fn threads_carry_over_what_their_rows_tell(
    entry: EntryModel,
    git_info: Option<GitInfo>,
)
    ensures
        ({
            let thread = thread_of(entry, git_info);
            &&& thread.id == entry.thread_id
            &&& thread.created_at == entry.created_at
            &&& thread.updated_at == entry.updated_at
            &&& thread.cwd == entry.cwd
            &&& thread.name == entry.name
            &&& thread.preview == entry.preview
            &&& thread.forked_from_id == entry.forked_from_id
            &&& thread.model_provider == entry.model_provider
            &&& thread.git_info == git_info
        }),
{
}

/// Rows of different times become threads that clients sort as the rows: a thread
/// is as new as its row.
pub proof fn threads_are_sorted_as_their_rows(
    one: EntryModel,
    other: EntryModel,
    git_info: Option<GitInfo>,
)
    ensures
        thread_of(one, git_info).updated_at - thread_of(other, git_info).updated_at
            == one.updated_at - other.updated_at,
        thread_of(one, git_info).created_at - thread_of(other, git_info).created_at
            == one.created_at - other.created_at,
{
}

/// The session of a thread is amp's thread where the row names one, and the row
/// itself where it does not; its path is that of amp's file, if the row has it.
pub proof fn sessions_are_amps_threads(
    entry: EntryModel,
    git_info: Option<GitInfo>,
    id: Seq<char>,
    path: Seq<u8>,
)
    ensures
        entry.metadata.amp_thread_id == Some(id) ==> thread_of(entry, git_info).session_id == id,
        entry.metadata.amp_thread_id is None ==> thread_of(entry, git_info).session_id
            == entry.thread_id,
        entry.metadata.amp_thread_path == Some(path) ==> thread_of(entry, git_info).path == Some(
            lossy_utf8(path),
        ),
        entry.metadata.amp_thread_path is None ==> thread_of(entry, git_info).path is None,
{
}

/// Clients know four sources; each of these stays what it is, and no other source
/// becomes one of the first three.
pub proof fn known_sources_stay_what_they_are(kind: ThreadSourceKind)
    ensures
        session_source_of(kind) == SessionSource::Cli <==> kind == ThreadSourceKind::Cli,
        session_source_of(kind) == SessionSource::VsCode <==> kind == ThreadSourceKind::VsCode,
        session_source_of(kind) == SessionSource::Exec <==> kind == ThreadSourceKind::Exec,
{
}

} // verus!
