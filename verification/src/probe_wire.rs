//! What the probe sends and reads.
use vstd::prelude::*;
use vstd::string::*;
use vstd::utf8::{decode_utf8, valid_utf8};
use crate::json::{
    Json, JsonModel, READ_DEPTH, encode_json, is_plain, json_bytes, json_pretty, member_models,
    object, optional_ref_model, parse_json, parsed_json, pretty_json, read_model, text_value,
    the_last_member_of_a_name_is_found, value_of, what_has_no_such_member_gives_none,
};
use crate::probe_error::{ProbeError, ProbeErrorModel, ReadError, ReadErrorModel, probe_error_of};
use crate::text::{
    decimal, decimal_text, line_feed_is_decoded, trimmed, trimmed_text_is_tight,
    trimming_takes_the_line_feed,
};

verus! {

/// The version of the protocol between phones and daemons.
pub const PROTOCOL_VERSION: u32 = 1;

/// The version that the probe tells the agent.
pub const PROBE_VERSION: &'static str = "0.1.0";

/// The method that is invoked unless another is named.
pub const DEFAULT_METHOD: &'static str = "thread/list";

/// The id of the request that initializes the session.
pub const INITIALIZE_ID: i64 = 1;

/// The id of the request that invokes the method.
pub const METHOD_ID: i64 = 2;

/// Where a client left off.
#[derive(Clone, Copy, Debug, PartialEq, Eq, Structural)]
pub struct Resume {
    pub last_seq: u64,
}

/// The first frame on a stream.
#[derive(Debug, PartialEq, Eq)]
pub enum Request {
    ListAgents { v: u32, token: String },
    Connect { v: u32, token: String, agent: String, resume: Option<Resume> },
}

/// What a `Request` says.
pub enum RequestModel {
    ListAgents { v: u32, token: Seq<char> },
    Connect { v: u32, token: Seq<char>, agent: Seq<char>, resume: Option<Resume> },
}

impl View for Request {
    type V = RequestModel;

    open spec fn view(&self) -> RequestModel {
        match self {
            Request::ListAgents { v, token } => RequestModel::ListAgents { v: *v, token: token@ },
            Request::Connect { v, token, agent, resume } => RequestModel::Connect {
                v: *v,
                token: token@,
                agent: agent@,
                resume: *resume,
            },
        }
    }
}

impl RequestModel {
    /// The token that authenticates the stream.
    pub open spec fn token(self) -> Seq<char> {
        match self {
            RequestModel::ListAgents { token, .. } => token,
            RequestModel::Connect { token, .. } => token,
        }
    }
}

/// Asks for the agents of a daemon.
pub fn list_agents_request(token: &str) -> (res: Request)
    ensures
        res@ == (RequestModel::ListAgents { v: PROTOCOL_VERSION, token: token@ }),
        res matches Request::ListAgents { v, token: carried } && v == 1 && carried@ == token@,
{
    Request::ListAgents { v: PROTOCOL_VERSION, token: token.to_owned() }
}

/// The request that connects to an agent.
pub open spec fn connecting(
    token: Seq<char>,
    agent: Seq<char>,
    resume_from: Option<u64>,
) -> RequestModel {
    RequestModel::Connect {
        v: PROTOCOL_VERSION,
        token,
        agent,
        resume: match resume_from {
            Some(last_seq) => Some(Resume { last_seq }),
            None => None,
        },
    }
}

/// Asks to be connected to an agent.
pub fn connect_request(token: &str, agent: &str, resume_from: Option<u64>) -> (res: Request)
    ensures
        res@ == connecting(token@, agent@, resume_from),
        res matches Request::Connect { v, token: carried, agent: named, resume } && v == 1
            && carried@ == token@ && named@ == agent@ && (match resume_from {
            Some(seq) => resume matches Some(from) && from.last_seq == seq,
            None => resume is None,
        }),
{
    let resume = match resume_from {
        Some(last_seq) => Some(Resume { last_seq }),
        None => None,
    };
    Request::Connect {
        v: PROTOCOL_VERSION,
        token: token.to_owned(),
        agent: agent.to_owned(),
        resume,
    }
}

/// What a daemon answers to the first frame, as far as connecting needs it.
pub struct Response {
    pub ok: bool,
    pub error: Option<String>,
}

/// Why a response is a refusal, if it is one.
pub open spec fn rejection(response: Response) -> Option<ProbeErrorModel> {
    if response.ok {
        None
    } else {
        Some(
            ProbeErrorModel::Rejected(
                match response.error {
                    Some(error) => error@,
                    None => "<no error>"@,
                },
            ),
        )
    }
}

/// Fails where the daemon refused the connection.
pub fn check_connected(response: Response) -> (res: Result<(), ProbeError>)
    ensures
        probe_error_of(res) == rejection(response),
        res is Ok <==> response.ok,
        !response.ok ==> (res matches Err(ProbeError::Rejected(reason)) && reason@ == (
        match response.error {
            Some(error) => error@,
            None => "<no error>"@,
        })),
{
    if !response.ok {
        let reason = match response.error {
            Some(error) => error,
            None => "<no error>".to_owned(),
        };
        return Err(ProbeError::Rejected(reason));
    }
    Ok(())
}

/// The session that a daemon attached a stream to. `attached` says how, as the
/// user reads it.
pub struct SessionInfo {
    pub attached: String,
    pub current_seq: u64,
    pub floor_seq: u64,
}

/// Where a client left off, as the user reads it.
pub open spec fn resume_shown(resume_from: Option<u64>) -> Seq<char> {
    match resume_from {
        Some(seq) => "Some("@ + decimal(seq as nat) + ")"@,
        None => "None"@,
    }
}

fn resume_text(resume_from: Option<u64>) -> (res: String)
    ensures
        res@ == resume_shown(resume_from),
{
    match resume_from {
        Some(seq) => {
            let mut text = "Some(".to_owned();
            text.append(decimal_text(seq).as_str());
            text.append(")");
            text
        },
        None => "None".to_owned(),
    }
}

/// What a session adds to what the user reads of a connection.
pub open spec fn session_shown(session: Option<SessionInfo>) -> Seq<char> {
    match session {
        Some(info) => " attached="@ + info.attached@ + " current_seq="@ + decimal(
            info.current_seq as nat,
        ) + " floor_seq="@ + decimal(info.floor_seq as nat),
        None => ""@,
    }
}

fn session_text(session: &Option<SessionInfo>) -> (res: String)
    ensures
        res@ == session_shown(*session),
{
    match session {
        Some(info) => {
            let mut text = " attached=".to_owned();
            text.append(info.attached.as_str());
            text.append(" current_seq=");
            text.append(decimal_text(info.current_seq).as_str());
            text.append(" floor_seq=");
            text.append(decimal_text(info.floor_seq).as_str());
            text
        },
        None => "".to_owned(),
    }
}

/// Tells the user that the daemon accepted the connection to an agent.
pub fn connected_notice(
    agent: &str,
    session: &Option<SessionInfo>,
    resume_from: Option<u64>,
) -> (res: String)
    ensures
        res@ == "probe: connect ok agent="@ + agent@ + session_shown(*session) + " resume_from="@
            + resume_shown(resume_from) + "; switching to JSONL"@,
{
    let mut text = "probe: connect ok agent=".to_owned();
    text.append(agent);
    text.append(session_text(session).as_str());
    text.append(" resume_from=");
    text.append(resume_text(resume_from).as_str());
    text.append("; switching to JSONL");
    text
}

/// Tells the user that a second stream is opened.
pub fn second_stream_notice(resume_from: u64) -> (res: String)
    ensures
        res@ == "probe: opening second connect stream with resume_from="@ + decimal(
            resume_from as nat,
        ),
{
    let mut text = "probe: opening second connect stream with resume_from=".to_owned();
    text.append(decimal_text(resume_from).as_str());
    text
}

/// The request that initializes a session.
pub open spec fn initializing() -> JsonModel {
    JsonModel::Object(
        seq![
            ("jsonrpc"@, JsonModel::Text("2.0"@)),
            ("id"@, JsonModel::Int(INITIALIZE_ID)),
            ("method"@, JsonModel::Text("initialize"@)),
            (
                "params"@,
                JsonModel::Object(
                    seq![
                        (
                            "clientInfo"@,
                            JsonModel::Object(
                                seq![
                                    ("name"@, JsonModel::Text("alleycat-probe"@)),
                                    ("version"@, JsonModel::Text(PROBE_VERSION@)),
                                    ("title"@, JsonModel::Text("alleycat-probe"@)),
                                ],
                            ),
                        ),
                        ("capabilities"@, JsonModel::Object(Seq::empty())),
                    ],
                ),
            ),
        ],
    )
}

/// The notification that the session is initialized.
pub open spec fn initialized() -> JsonModel {
    JsonModel::Object(
        seq![
            ("jsonrpc"@, JsonModel::Text("2.0"@)),
            ("method"@, JsonModel::Text("initialized"@)),
            ("params"@, JsonModel::Object(Seq::empty())),
        ],
    )
}

/// The request that invokes a method.
pub open spec fn invoking(method: Seq<char>, params: JsonModel) -> JsonModel {
    JsonModel::Object(
        seq![
            ("jsonrpc"@, JsonModel::Text("2.0"@)),
            ("id"@, JsonModel::Int(METHOD_ID)),
            ("method"@, JsonModel::Text(method)),
            ("params"@, params),
        ],
    )
}

fn empty_object() -> (res: Json)
    ensures
        res@ == JsonModel::Object(Seq::empty()),
{
    let members: Vec<(String, Json)> = Vec::new();
    assert(member_models(members@) =~= Seq::empty());
    object(members)
}

/// Initializes a session.
pub fn initialize_request() -> (res: Json)
    ensures
        res@ == initializing(),
{
    let mut info: Vec<(String, Json)> = Vec::new();
    info.push(("name".to_owned(), text_value("alleycat-probe")));
    info.push(("version".to_owned(), text_value(PROBE_VERSION)));
    info.push(("title".to_owned(), text_value("alleycat-probe")));
    assert(member_models(info@) =~= seq![
        ("name"@, JsonModel::Text("alleycat-probe"@)),
        ("version"@, JsonModel::Text(PROBE_VERSION@)),
        ("title"@, JsonModel::Text("alleycat-probe"@)),
    ]);
    let mut params: Vec<(String, Json)> = Vec::new();
    params.push(("clientInfo".to_owned(), object(info)));
    params.push(("capabilities".to_owned(), empty_object()));
    let ghost params_model = initializing()->Object_0[3].1->Object_0;
    assert(member_models(params@) =~= params_model);
    let mut request: Vec<(String, Json)> = Vec::new();
    request.push(("jsonrpc".to_owned(), text_value("2.0")));
    request.push(("id".to_owned(), int_value(INITIALIZE_ID)));
    request.push(("method".to_owned(), text_value("initialize")));
    request.push(("params".to_owned(), object(params)));
    assert(member_models(request@) =~= initializing()->Object_0);
    object(request)
}

fn int_value(n: i64) -> (res: Json)
    ensures
        res@ == JsonModel::Int(n),
{
    Json::Int(n)
}

/// Says that the session is initialized.
pub fn initialized_notification() -> (res: Json)
    ensures
        res@ == initialized(),
{
    let mut notification: Vec<(String, Json)> = Vec::new();
    notification.push(("jsonrpc".to_owned(), text_value("2.0")));
    notification.push(("method".to_owned(), text_value("initialized")));
    notification.push(("params".to_owned(), empty_object()));
    assert(member_models(notification@) =~= initialized()->Object_0);
    object(notification)
}

/// Invokes a method.
pub fn method_request(method: &str, params: Json) -> (res: Json)
    ensures
        res@ == invoking(method@, params@),
{
    let mut request: Vec<(String, Json)> = Vec::new();
    request.push(("jsonrpc".to_owned(), text_value("2.0")));
    request.push(("id".to_owned(), int_value(METHOD_ID)));
    request.push(("method".to_owned(), text_value(method)));
    request.push(("params".to_owned(), params));
    assert(member_models(request@) =~= invoking(method@, params@)->Object_0);
    object(request)
}

/// A document as a line: its compact form and a line feed.
pub open spec fn line_of(document: JsonModel) -> Seq<u8> {
    json_bytes(document).push(10u8)
}

/// What is written for a document. There is a line feed at the end, and nowhere
/// else, so that a reader takes the line and leaves what follows it; and what is
/// read from the line is a frame that stands for the same as the document, where
/// this nests no deeper than documents are read and its numbers are whole.
pub fn json_line(document: &Json) -> (res: Vec<u8>)
    ensures
        res@ == line_of(document@),
        res@ == json_bytes(document@).push(10u8),
        res@.len() > 0 && res@.last() == 10u8,
        forall|i: int| 0 <= i < res@.len() - 1 ==> #[trigger] res@[i] != 10u8,
        valid_utf8(res@),
        is_plain(document@, READ_DEPTH as nat) ==> (frame_read(
            ReadOutcomeModel::Line(decode_utf8(res@)),
        ) matches FrameModel::Frame(frame) && value_of(frame) == value_of(document@)),
{
    let mut bytes = encode_json(document);
    proof {
        let text = decode_utf8(bytes@);
        assert(text.len() > 0);
        line_feed_is_decoded(bytes@);
        trimming_takes_the_line_feed(text);
    }
    bytes.push(10);
    bytes
}

/// What came of reading a line. At the end of the stream the line is empty.
pub enum ReadOutcome {
    TimedOut,
    Failed(String),
    Line(String),
}

/// What a `ReadOutcome` says.
pub enum ReadOutcomeModel {
    TimedOut,
    Failed(Seq<char>),
    Line(Seq<char>),
}

impl View for ReadOutcome {
    type V = ReadOutcomeModel;

    open spec fn view(&self) -> ReadOutcomeModel {
        match self {
            ReadOutcome::TimedOut => ReadOutcomeModel::TimedOut,
            ReadOutcome::Failed(err) => ReadOutcomeModel::Failed(err@),
            ReadOutcome::Line(line) => ReadOutcomeModel::Line(line@),
        }
    }
}

/// A frame, or why there is none.
pub enum FrameModel {
    Frame(JsonModel),
    Missing(ReadErrorModel),
}

/// What a result of reading says.
pub open spec fn frame_model(res: Result<Json, ReadError>) -> FrameModel {
    match res {
        Ok(frame) => FrameModel::Frame(frame@),
        Err(e) => FrameModel::Missing(e@),
    }
}

/// Whether a frame is a response to the request `id`. One that names a method is
/// a request of the agent's own, whatever its id.
pub open spec fn responds_to(frame: JsonModel, id: i64) -> bool {
    frame.get("id"@) == Some(JsonModel::Int(id)) && frame.get("method"@) is None
}

/// Whether a frame is a response to the request `id`.
pub fn is_response_to(frame: &Json, id: i64) -> (res: bool)
    ensures
        res == responds_to(frame@, id),
{
    match frame.get("id") {
        Some(found) => found.is_int(id) && frame.get("method").is_none(),
        None => false,
    }
}

/// The error that a response tells, if it tells one. A member `error` that is null
/// is none.
pub open spec fn told_error(response: JsonModel) -> Option<JsonModel> {
    match response.get("error"@) {
        Some(JsonModel::Null) => None,
        found => found,
    }
}

/// The error that a response tells, if it tells one.
pub fn response_error(response: &Json) -> (res: Option<&Json>)
    ensures
        optional_ref_model(res) == told_error(response@),
{
    match response.get("error") {
        Some(error) => match error {
            Json::Null => None,
            _ => Some(error),
        },
        None => None,
    }
}

/// What a line of trimmed text that is not empty stands for, where `parsed` is
/// the document that it was read as.
pub open spec fn decoded(
    line: Seq<char>,
    parsed: Result<JsonModel, Seq<char>>,
) -> FrameModel {
    match parsed {
        Ok(frame) => FrameModel::Frame(frame),
        Err(cause) => FrameModel::Missing(ReadErrorModel::Malformed { line, cause }),
    }
}

/// The frame that was read, or why there is none.
pub open spec fn frame_read(outcome: ReadOutcomeModel) -> FrameModel {
    match outcome {
        ReadOutcomeModel::TimedOut => FrameModel::Missing(ReadErrorModel::TimedOut),
        ReadOutcomeModel::Failed(err) => FrameModel::Missing(ReadErrorModel::Failed(err)),
        ReadOutcomeModel::Line(line) => if line.len() == 0 {
            FrameModel::Missing(ReadErrorModel::Closed)
        } else if trimmed(line).len() == 0 {
            FrameModel::Missing(ReadErrorModel::Empty)
        } else {
            decoded(trimmed(line), parsed_json(trimmed(line)))
        },
    }
}

/// What a line of trimmed text that is not empty stands for, where `parsed` is
/// the document that it was read as.
pub fn decode_line(line: &str, parsed: Result<Json, String>) -> (res: Result<Json, ReadError>)
    ensures
        frame_model(res) == decoded(line@, read_model(parsed)),
{
    match parsed {
        Ok(frame) => Ok(frame),
        Err(cause) => Err(ReadError::Malformed { line: line.to_owned(), cause }),
    }
}

/// The frame that was read, or why there is none.
pub fn read_frame(outcome: ReadOutcome) -> (res: Result<Json, ReadError>)
    ensures
        frame_model(res) == frame_read(outcome@),
        match outcome {
            ReadOutcome::TimedOut => res matches Err(ReadError::TimedOut),
            ReadOutcome::Failed(err) => res matches Err(ReadError::Failed(told)) && told@ == err@,
            ReadOutcome::Line(line) => {
                &&& line@.len() == 0 <==> (res matches Err(ReadError::Closed))
                &&& (line@.len() > 0 && trimmed(line@).len() == 0) <==> (res matches Err(
                    ReadError::Empty,
                ))
                &&& trimmed(line@).len() > 0 ==> match parsed_json(trimmed(line@)) {
                    Ok(frame) => res matches Ok(read) && read@ == frame,
                    Err(why) => res matches Err(ReadError::Malformed { line: told, cause })
                        && told@ == trimmed(line@) && cause@ == why,
                }
            },
        },
{
    match outcome {
        ReadOutcome::TimedOut => Err(ReadError::TimedOut),
        ReadOutcome::Failed(err) => Err(ReadError::Failed(err)),
        ReadOutcome::Line(line) => {
            if line.as_str().is_empty() {
                return Err(ReadError::Closed);
            }
            let text = line.as_str().trim();
            if text.is_empty() {
                return Err(ReadError::Empty);
            }
            assert(line@.len() > 0);
            let parsed = parse_json(text);
            decode_line(text, parsed)
        },
    }
}

/// Reads the parameters of a method.
pub fn parse_params(params: &str) -> (res: Result<Json, ProbeError>)
    ensures
        match parsed_json(params@) {
            Ok(value) => res matches Ok(json) && json@ == value,
            Err(cause) => probe_error_of(res) == Some(
                (ProbeErrorModel::Params { text: params@, cause }),
            ),
        },
{
    match parse_json(params) {
        Ok(value) => Ok(value),
        Err(cause) => Err(ProbeError::Params { text: params.to_owned(), cause }),
    }
}

/// How a frame that is sent is shown.
pub fn outbound_text(document: &Json) -> (res: String)
    ensures
        res@ == "→ "@ + json_pretty(document@),
{
    let mut text = "→ ".to_owned();
    text.append(pretty_json(document).as_str());
    text
}

/// How a frame that was read is shown.
pub fn inbound_text(document: &Json) -> (res: String)
    ensures
        res@ == "← "@ + json_pretty(document@),
{
    let mut text = "← ".to_owned();
    text.append(pretty_json(document).as_str());
    text
}

/// Both kinds of first frame carry the token.
pub proof fn first_frames_carry_the_token(
    token: Seq<char>,
    agent: Seq<char>,
    resume_from: Option<u64>,
)
    ensures
        connecting(token, agent, resume_from).token() == token,
        (RequestModel::ListAgents { v: PROTOCOL_VERSION, token }).token() == token,
{
}

/// A line holds one line feed, at its end, so lines that are written one after
/// the other can be told apart again: where a line starts `rest`, it is the part
/// up to the first line feed.
pub proof fn lines_can_be_told_apart(line: Seq<u8>, rest: Seq<u8>, other: Seq<u8>, others: Seq<u8>)
    requires
        line.len() > 0 && line.last() == 10u8,
        forall|i: int| 0 <= i < line.len() - 1 ==> #[trigger] line[i] != 10u8,
        other.len() > 0 && other.last() == 10u8,
        forall|i: int| 0 <= i < other.len() - 1 ==> #[trigger] other[i] != 10u8,
        line + rest == other + others,
    ensures
        line == other,
        rest == others,
{
    let all = line + rest;
    assert(all == other + others);
    assert(all[line.len() - 1] == 10u8);
    assert(all[other.len() - 1] == 10u8);
    if line.len() < other.len() {
        assert(other[line.len() - 1] == all[line.len() - 1]);
    }
    if other.len() < line.len() {
        assert(line[other.len() - 1] == all[other.len() - 1]);
    }
    assert(line =~= all.take(line.len() as int));
    assert(other =~= all.take(line.len() as int));
    assert(rest =~= all.skip(line.len() as int));
    assert(others =~= all.skip(line.len() as int));
}

proof fn member_names_differ()
    ensures
        "jsonrpc"@ != "id"@,
        "jsonrpc"@ != "method"@,
        "jsonrpc"@ != "params"@,
        "id"@ != "method"@,
        "id"@ != "params"@,
        "method"@ != "params"@,
        "clientInfo"@ != "capabilities"@,
        "name"@ != "version"@,
        "name"@ != "title"@,
        "version"@ != "title"@,
{
    reveal_strlit("jsonrpc");
    reveal_strlit("id");
    reveal_strlit("method");
    reveal_strlit("params");
    reveal_strlit("clientInfo");
    reveal_strlit("capabilities");
    reveal_strlit("name");
    reveal_strlit("version");
    reveal_strlit("title");
    assert("method"@[0] == 'm' && "params"@[0] == 'p');
    assert("jsonrpc"@.len() == 7 && "id"@.len() == 2 && "method"@.len() == 6);
    assert("name"@.len() == 4 && "version"@.len() == 7 && "title"@.len() == 5);
    assert("clientInfo"@.len() == 10 && "capabilities"@.len() == 12);
}

/// The request that invokes a method is a JSON-RPC request with the id that its
/// response is known by, and carries the method and its parameters as they are.
pub proof fn requests_carry_the_method_and_its_parameters(method: Seq<char>, params: JsonModel)
    ensures
        invoking(method, params).get("jsonrpc"@) == Some(JsonModel::Text("2.0"@)),
        invoking(method, params).get("id"@) == Some(JsonModel::Int(2)),
        invoking(method, params).get("method"@) == Some(JsonModel::Text(method)),
        invoking(method, params).get("params"@) == Some(params),
{
    member_names_differ();
    let members = invoking(method, params)->Object_0;
    the_last_member_of_a_name_is_found(members, 0);
    the_last_member_of_a_name_is_found(members, 1);
    the_last_member_of_a_name_is_found(members, 2);
    the_last_member_of_a_name_is_found(members, 3);
}

/// The request that initializes a session is a JSON-RPC request with an id of its
/// own, and the notification that follows its response has none.
pub proof fn the_handshake_is_a_request_and_a_notification()
    ensures
        initializing().get("jsonrpc"@) == Some(JsonModel::Text("2.0"@)),
        initializing().get("id"@) == Some(JsonModel::Int(1)),
        initializing().get("method"@) == Some(JsonModel::Text("initialize"@)),
        initializing().get("params"@) matches Some(params) && (params.get("clientInfo"@)
            matches Some(info) && info.get("name"@) == Some(JsonModel::Text("alleycat-probe"@))
            && info.get("version"@) == Some(JsonModel::Text(PROBE_VERSION@)) && info.get("title"@)
            == Some(JsonModel::Text("alleycat-probe"@))) && params.get("capabilities"@) == Some(
            JsonModel::Object(Seq::empty()),
        ),
        initialized().get("jsonrpc"@) == Some(JsonModel::Text("2.0"@)),
        initialized().get("id"@) is None,
        initialized().get("method"@) == Some(JsonModel::Text("initialized"@)),
        initialized().get("params"@) == Some(JsonModel::Object(Seq::empty())),
{
    member_names_differ();
    let members = initializing()->Object_0;
    the_last_member_of_a_name_is_found(members, 0);
    the_last_member_of_a_name_is_found(members, 1);
    the_last_member_of_a_name_is_found(members, 2);
    the_last_member_of_a_name_is_found(members, 3);
    let params = members[3].1->Object_0;
    the_last_member_of_a_name_is_found(params, 0);
    the_last_member_of_a_name_is_found(params, 1);
    let info = params[0].1->Object_0;
    the_last_member_of_a_name_is_found(info, 0);
    the_last_member_of_a_name_is_found(info, 1);
    the_last_member_of_a_name_is_found(info, 2);
    let notification = initialized()->Object_0;
    the_last_member_of_a_name_is_found(notification, 0);
    the_last_member_of_a_name_is_found(notification, 1);
    the_last_member_of_a_name_is_found(notification, 2);
    what_has_no_such_member_gives_none(initialized(), "id"@);
}

/// A request is no response, not even to itself; an object with the id of a
/// request and without a method is a response to that request and to no other.
pub proof fn responses_are_known_by_their_id(
    frame: JsonModel,
    id: i64,
    other: i64,
    method: Seq<char>,
    params: JsonModel,
)
    ensures
        frame.get("id"@) == Some(JsonModel::Int(id)) && frame.get("method"@) is None
            ==> responds_to(frame, id),
        responds_to(frame, id) && other != id ==> !responds_to(frame, other),
        !(frame.get("id"@) matches Some(JsonModel::Int(_))) ==> !responds_to(frame, id),
        frame.get("method"@) is Some ==> !responds_to(frame, id),
        !responds_to(invoking(method, params), id),
        !responds_to(initializing(), id),
{
    requests_carry_the_method_and_its_parameters(method, params);
    the_handshake_is_a_request_and_a_notification();
}

/// A response tells the error that it holds, unless that is null.
pub proof fn errors_are_told_unless_they_are_null(response: JsonModel, error: JsonModel)
    ensures
        response.get("error"@) == Some(error) && error != JsonModel::Null ==> told_error(response)
            == Some(error),
        response.get("error"@) == Some(JsonModel::Null) ==> told_error(response) is None,
        response.get("error"@) is None ==> told_error(response) is None,
{
}

/// A request to connect names the agent, and where the client left off if it did;
/// both kinds of first frame are of the first version of the protocol.
pub proof fn connections_are_asked_for_by_name(token: Seq<char>, agent: Seq<char>, seq: u64)
    ensures
        connecting(token, agent, Some(seq)) == (RequestModel::Connect {
            v: 1,
            token,
            agent,
            resume: Some(Resume { last_seq: seq }),
        }),
        connecting(token, agent, None) == (RequestModel::Connect {
            v: 1,
            token,
            agent,
            resume: None,
        }),
{
}

/// A connection is refused exactly where the daemon says so, for its reason.
pub proof fn refusals_are_the_daemons(response: Response)
    ensures
        response.ok <==> rejection(response) is None,
        !response.ok ==> (match response.error {
            Some(error) => rejection(response) == Some(ProbeErrorModel::Rejected(error@)),
            None => rejection(response) == Some(ProbeErrorModel::Rejected("<no error>"@)),
        }),
{
}

/// What is read from a line does not depend on white space around it, and why
/// nothing is read is told apart.
pub proof fn lines_are_read_without_white_space(line: Seq<char>, err: Seq<char>)
    ensures
        trimmed(line).len() > 0 ==> frame_read(ReadOutcomeModel::Line(line)) == frame_read(
            ReadOutcomeModel::Line(trimmed(line)),
        ),
        trimmed(line).len() > 0 ==> match parsed_json(trimmed(line)) {
            Ok(frame) => frame_read(ReadOutcomeModel::Line(line)) == FrameModel::Frame(frame),
            Err(cause) => frame_read(ReadOutcomeModel::Line(line)) == FrameModel::Missing(
                (ReadErrorModel::Malformed { line: trimmed(line), cause }),
            ),
        },
        line.len() > 0 && trimmed(line).len() == 0 ==> frame_read(ReadOutcomeModel::Line(line))
            == FrameModel::Missing(ReadErrorModel::Empty),
        frame_read(ReadOutcomeModel::Line(Seq::empty())) == FrameModel::Missing(
            ReadErrorModel::Closed,
        ),
        frame_read(ReadOutcomeModel::TimedOut) == FrameModel::Missing(ReadErrorModel::TimedOut),
        frame_read(ReadOutcomeModel::Failed(err)) == FrameModel::Missing(
            ReadErrorModel::Failed(err),
        ),
{
    trimmed_text_is_tight(line);
    if line.len() == 0 {
        assert(trimmed(line).len() == 0);
    }
}

/// What the user reads of a connection tells where it was resumed and what session
/// it was attached to.
pub proof fn connections_are_told_with_their_session(seq: u64, info: SessionInfo)
    ensures
        resume_shown(Some(seq)) == "Some("@ + decimal(seq as nat) + ")"@,
        resume_shown(None) == "None"@,
        session_shown(Some(info)) == " attached="@ + info.attached@ + " current_seq="@ + decimal(
            info.current_seq as nat,
        ) + " floor_seq="@ + decimal(info.floor_seq as nat),
        session_shown(None) == ""@,
{
}

/// Frames, and why there are none, say what they hold.
pub proof fn frames_say_what_they_hold(
    read: Result<Json, ReadError>,
    line: Seq<char>,
    cause: Seq<char>,
    frame: JsonModel,
)
    ensures
        read matches Ok(json) ==> frame_model(read) == FrameModel::Frame(json@),
        read matches Err(e) ==> frame_model(read) == FrameModel::Missing(e@),
        decoded(line, Ok(frame)) == FrameModel::Frame(frame),
        decoded(line, Err(cause)) == FrameModel::Missing(
            (ReadErrorModel::Malformed { line, cause }),
        ),
{
}

} // verus!
