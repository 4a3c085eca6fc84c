//! What can go wrong with a probe.
use vstd::prelude::*;
use vstd::string::*;
use crate::text::optional_text;

verus! {

/// Why no frame was read.
#[derive(Debug, PartialEq, Eq)]
pub enum ReadError {
    TimedOut,
    Closed,
    Empty,
    /// The line, trimmed, is no JSON document.
    Malformed { line: String, cause: String },
    /// Reading failed, for this reason.
    Failed(String),
}

/// What a `ReadError` says.
pub enum ReadErrorModel {
    TimedOut,
    Closed,
    Empty,
    Malformed { line: Seq<char>, cause: Seq<char> },
    Failed(Seq<char>),
}

impl View for ReadError {
    type V = ReadErrorModel;

    open spec fn view(&self) -> ReadErrorModel {
        match self {
            ReadError::TimedOut => ReadErrorModel::TimedOut,
            ReadError::Closed => ReadErrorModel::Closed,
            ReadError::Empty => ReadErrorModel::Empty,
            ReadError::Malformed { line, cause } => ReadErrorModel::Malformed {
                line: line@,
                cause: cause@,
            },
            ReadError::Failed(err) => ReadErrorModel::Failed(err@),
        }
    }
}

impl ReadErrorModel {
    /// The text that a user reads, with what caused the error.
    pub open spec fn text(self) -> Seq<char> {
        match self {
            ReadErrorModel::TimedOut => "timed out waiting for JSON line"@,
            ReadErrorModel::Closed => "stream closed by peer"@,
            ReadErrorModel::Empty => "empty JSON line"@,
            ReadErrorModel::Malformed { line, cause } => "decoding JSON-RPC line: "@ + line + ": "@
                + cause,
            ReadErrorModel::Failed(err) => err,
        }
    }
}

/// Why a probe failed.
#[derive(Debug, PartialEq, Eq)]
pub enum ProbeError {
    /// The node of the arguments is no key.
    NodeIdArgument { text: String, cause: String },
    /// The node of the pair payload is no key.
    NodeIdPayload { text: String, cause: String },
    /// The relay is no URL.
    RelayUrl { text: String, cause: String },
    /// The parameters are no JSON document.
    Params { text: String, cause: String },
    /// The daemon refused the connection, for this reason.
    Rejected(String),
    /// No response to `initialize` was read.
    Initialize(ReadError),
    /// The agent answered `initialize` with this error, told as JSON.
    InitializeFailed(String),
}

/// What a `ProbeError` says.
pub enum ProbeErrorModel {
    NodeIdArgument { text: Seq<char>, cause: Seq<char> },
    NodeIdPayload { text: Seq<char>, cause: Seq<char> },
    RelayUrl { text: Seq<char>, cause: Seq<char> },
    Params { text: Seq<char>, cause: Seq<char> },
    Rejected(Seq<char>),
    Initialize(ReadErrorModel),
    InitializeFailed(Seq<char>),
}

impl View for ProbeError {
    type V = ProbeErrorModel;

    open spec fn view(&self) -> ProbeErrorModel {
        match self {
            ProbeError::NodeIdArgument { text, cause } => ProbeErrorModel::NodeIdArgument {
                text: text@,
                cause: cause@,
            },
            ProbeError::NodeIdPayload { text, cause } => ProbeErrorModel::NodeIdPayload {
                text: text@,
                cause: cause@,
            },
            ProbeError::RelayUrl { text, cause } => ProbeErrorModel::RelayUrl {
                text: text@,
                cause: cause@,
            },
            ProbeError::Params { text, cause } => ProbeErrorModel::Params {
                text: text@,
                cause: cause@,
            },
            ProbeError::Rejected(s) => ProbeErrorModel::Rejected(s@),
            ProbeError::Initialize(e) => ProbeErrorModel::Initialize(e@),
            ProbeError::InitializeFailed(s) => ProbeErrorModel::InitializeFailed(s@),
        }
    }
}

/// What the error of a result says, if there is one.
pub open spec fn probe_error_of<T>(res: Result<T, ProbeError>) -> Option<ProbeErrorModel> {
    match res {
        Ok(_) => None,
        Err(e) => Some(e@),
    }
}

/// A text in quotes, as the `Debug` format of `str` writes it.
pub uninterp spec fn quoted(text: Seq<char>) -> Seq<char>;

/// Formats a `str` with std's `Debug`: the text in quotes, escaped, which
/// depends on the text alone.
#[verifier::external_body]
fn quote(text: &str) -> (res: String)
    ensures
        res@ == quoted(text@),
{
    format!("{:?}", text)
}

impl ProbeErrorModel {
    /// The text that a user reads, without what caused the error.
    pub open spec fn text(self) -> Seq<char> {
        match self {
            ProbeErrorModel::NodeIdArgument { text, .. } => "parsing --node-id "@ + quoted(text)
                + " as iroh public key"@,
            ProbeErrorModel::NodeIdPayload { text, .. } => "parsing pair payload node_id "@
                + quoted(text),
            ProbeErrorModel::RelayUrl { text, .. } => "parsing relay URL "@ + quoted(text),
            ProbeErrorModel::Params { text, .. } => "parsing --params "@ + quoted(text)
                + " as JSON"@,
            ProbeErrorModel::Rejected(s) => "connect rejected: "@ + s,
            ProbeErrorModel::Initialize(_) => "reading initialize response"@,
            ProbeErrorModel::InitializeFailed(_) => "initialize failed"@,
        }
    }

    /// What caused the error. A refusal has no further cause.
    pub open spec fn cause(self) -> Option<Seq<char>> {
        match self {
            ProbeErrorModel::NodeIdArgument { cause, .. } => Some(cause),
            ProbeErrorModel::NodeIdPayload { cause, .. } => Some(cause),
            ProbeErrorModel::RelayUrl { cause, .. } => Some(cause),
            ProbeErrorModel::Params { cause, .. } => Some(cause),
            ProbeErrorModel::Rejected(_) => None,
            ProbeErrorModel::Initialize(e) => Some(e.text()),
            ProbeErrorModel::InitializeFailed(s) => Some(s),
        }
    }
}

fn spelled(first: &str, second: &str, third: &str) -> (res: String)
    ensures
        res@ == first@ + second@ + third@,
{
    let mut text = first.to_owned();
    text.append(second);
    text.append(third);
    text
}

impl ReadError {
    /// The text of this error.
    pub fn to_string(&self) -> (res: String)
        ensures
            res@ == self@.text(),
            match self {
                ReadError::TimedOut => res@ == "timed out waiting for JSON line"@,
                ReadError::Closed => res@ == "stream closed by peer"@,
                ReadError::Empty => res@ == "empty JSON line"@,
                ReadError::Malformed { line, cause } => res@ == "decoding JSON-RPC line: "@ + line@
                    + ": "@ + cause@,
                ReadError::Failed(err) => res@ == err@,
            },
    {
        match self {
            ReadError::TimedOut => "timed out waiting for JSON line".to_owned(),
            ReadError::Closed => "stream closed by peer".to_owned(),
            ReadError::Empty => "empty JSON line".to_owned(),
            ReadError::Malformed { line, cause } => {
                let mut text = "decoding JSON-RPC line: ".to_owned();
                text.append(line.as_str());
                text.append(": ");
                text.append(cause.as_str());
                text
            },
            ReadError::Failed(err) => err.clone(),
        }
    }
}

impl ProbeError {
    /// The text of this error, without what caused it.
    pub fn to_string(&self) -> (res: String)
        ensures
            res@ == self@.text(),
            match self {
                ProbeError::NodeIdArgument { text, .. } => res@ == "parsing --node-id "@ + quoted(
                    text@,
                ) + " as iroh public key"@,
                ProbeError::NodeIdPayload { text, .. } => res@ == "parsing pair payload node_id "@
                    + quoted(text@),
                ProbeError::RelayUrl { text, .. } => res@ == "parsing relay URL "@ + quoted(text@),
                ProbeError::Params { text, .. } => res@ == "parsing --params "@ + quoted(text@)
                    + " as JSON"@,
                ProbeError::Rejected(reason) => res@ == "connect rejected: "@ + reason@,
                ProbeError::Initialize(_) => res@ == "reading initialize response"@,
                ProbeError::InitializeFailed(_) => res@ == "initialize failed"@,
            },
    {
        proof {
            reveal_strlit("");
            assert(forall|s: Seq<char>| #[trigger] (s + ""@) =~= s);
        }
        match self {
            ProbeError::NodeIdArgument { text, .. } => spelled(
                "parsing --node-id ",
                quote(text.as_str()).as_str(),
                " as iroh public key",
            ),
            ProbeError::NodeIdPayload { text, .. } => spelled(
                "parsing pair payload node_id ",
                quote(text.as_str()).as_str(),
                "",
            ),
            ProbeError::RelayUrl { text, .. } => spelled(
                "parsing relay URL ",
                quote(text.as_str()).as_str(),
                "",
            ),
            ProbeError::Params { text, .. } => spelled(
                "parsing --params ",
                quote(text.as_str()).as_str(),
                " as JSON",
            ),
            ProbeError::Rejected(s) => spelled("connect rejected: ", s.as_str(), ""),
            ProbeError::Initialize(_) => "reading initialize response".to_owned(),
            ProbeError::InitializeFailed(_) => "initialize failed".to_owned(),
        }
    }

    /// What caused this error.
    pub fn cause(&self) -> (res: Option<String>)
        ensures
            optional_text(res) == self@.cause(),
            match self {
                ProbeError::NodeIdArgument { cause, .. } => optional_text(res) == Some(cause@),
                ProbeError::NodeIdPayload { cause, .. } => optional_text(res) == Some(cause@),
                ProbeError::RelayUrl { cause, .. } => optional_text(res) == Some(cause@),
                ProbeError::Params { cause, .. } => optional_text(res) == Some(cause@),
                ProbeError::Rejected(_) => res is None,
                ProbeError::Initialize(e) => optional_text(res) == Some(e@.text()),
                ProbeError::InitializeFailed(error) => optional_text(res) == Some(error@),
            },
    {
        match self {
            ProbeError::NodeIdArgument { cause, .. } => Some(cause.clone()),
            ProbeError::NodeIdPayload { cause, .. } => Some(cause.clone()),
            ProbeError::RelayUrl { cause, .. } => Some(cause.clone()),
            ProbeError::Params { cause, .. } => Some(cause.clone()),
            ProbeError::Rejected(_) => None,
            ProbeError::Initialize(e) => Some(e.to_string()),
            ProbeError::InitializeFailed(s) => Some(s.clone()),
        }
    }
}

} // verus!
