//! What the probe is asked to do, and whom it dials.
use vstd::prelude::*;
use vstd::string::*;
use vstd::utf8::encode_utf8;
use crate::text::optional_text;
use crate::probe_error::{ProbeError, ProbeErrorModel, probe_error_of};
use crate::token::{hex_encode, hex_text, sha256, short_form, short_token};

verus! {

/// The seconds that the probe lingers for late frames unless told otherwise.
pub const DEFAULT_LINGER_SECS: u64 = 5;

/// The seconds that the probe waits for a response unless told otherwise.
pub const DEFAULT_TIMEOUT_SECS: u64 = 30;

/// What the probe is asked to do.
pub struct ProbeArgs {
    /// The agent to connect to; without one the agents are listed.
    pub agent: Option<String>,
    /// The method to invoke, in place of `thread/list`.
    pub method: Option<String>,
    /// The parameters of the method, as JSON.
    pub params: String,
    /// The node to dial, in place of the local daemon.
    pub node_id: Option<String>,
    /// The token to authenticate with, in place of the local daemon's.
    pub token: Option<String>,
    /// The relay to go through, in place of the local daemon's.
    pub relay: Option<String>,
    /// The seconds to wait for more frames behind the response.
    pub linger_secs: u64,
    /// The seconds to wait for a response.
    pub timeout_secs: u64,
    /// The sequence number to resume behind.
    pub resume_from: Option<u64>,
    /// The sequence number to resume behind on a second stream.
    pub repeat_resume_from: Option<u64>,
}

impl Default for ProbeArgs {
    fn default() -> (res: Self)
        ensures
            res.agent is None && res.method is None && res.node_id is None && res.token is None
                && res.relay is None,
            res.params@ == "{}"@,
            res.linger_secs == DEFAULT_LINGER_SECS && res.timeout_secs == DEFAULT_TIMEOUT_SECS,
            res.linger_secs == 5 && res.timeout_secs == 30,
            res.resume_from is None && res.repeat_resume_from is None,
    {
        ProbeArgs {
            agent: None,
            method: None,
            params: "{}".to_owned(),
            node_id: None,
            token: None,
            relay: None,
            linger_secs: DEFAULT_LINGER_SECS,
            timeout_secs: DEFAULT_TIMEOUT_SECS,
            resume_from: None,
            repeat_resume_from: None,
        }
    }
}

/// What a phone learns from the QR code of a daemon, as far as dialing needs it.
pub struct PairPayload {
    pub node_id: String,
    pub token: String,
    pub relay: Option<String>,
}

/// What a `PairPayload` says.
#[verifier::ext_equal]
pub struct PairPayloadModel {
    pub node_id: Seq<char>,
    pub token: Seq<char>,
    pub relay: Option<Seq<char>>,
}

impl View for PairPayload {
    type V = PairPayloadModel;

    open spec fn view(&self) -> PairPayloadModel {
        PairPayloadModel {
            node_id: self.node_id@,
            token: self.token@,
            relay: optional_text(self.relay),
        }
    }
}

/// Whether the local daemon is dialed, so that it has to run and is asked for
/// its pair payload.
pub fn dials_local_daemon(args: &ProbeArgs) -> (res: bool)
    ensures
        res == args.node_id is None,
{
    args.node_id.is_none()
}

/// The pair payload of this computer: what the running daemon says, where it is
/// preferred and says something, or else what is stored.
pub fn local_pair_payload(
    prefer_daemon: bool,
    from_daemon: Option<PairPayload>,
    stored: PairPayload,
) -> (res: PairPayload)
    ensures
        res == (if prefer_daemon && from_daemon is Some {
            from_daemon->0
        } else {
            stored
        }),
{
    if prefer_daemon {
        match from_daemon {
            Some(payload) => payload,
            None => stored,
        }
    } else {
        stored
    }
}

/// Whom to dial, by name.
pub struct DialChoice {
    pub node_id: String,
    /// Whether the node was named in the arguments.
    pub node_is_named: bool,
    pub token: String,
    pub relay: Option<String>,
}

/// What a `DialChoice` says.
#[verifier::ext_equal]
pub struct DialChoiceModel {
    pub node_id: Seq<char>,
    pub node_is_named: bool,
    pub token: Seq<char>,
    pub relay: Option<Seq<char>>,
}

impl View for DialChoice {
    type V = DialChoiceModel;

    open spec fn view(&self) -> DialChoiceModel {
        DialChoiceModel {
            node_id: self.node_id@,
            node_is_named: self.node_is_named,
            token: self.token@,
            relay: optional_text(self.relay),
        }
    }
}

/// Whom to dial: what the arguments name goes before what the local daemon
/// says, and the local relay is of use for the local node alone.
pub open spec fn dial_choice(args: ProbeArgs, local: PairPayloadModel) -> DialChoiceModel {
    DialChoiceModel {
        node_id: match args.node_id {
            Some(id) => id@,
            None => local.node_id,
        },
        node_is_named: args.node_id is Some,
        token: match args.token {
            Some(token) => token@,
            None => local.token,
        },
        relay: match (args.relay, args.node_id) {
            (Some(relay), _) => Some(relay@),
            (None, None) => local.relay,
            (None, Some(_)) => None,
        },
    }
}

/// Whom to dial, given the pair payload of this computer.
pub fn choose_dial(args: &ProbeArgs, local: &PairPayload) -> (res: DialChoice)
    ensures
        res@ == dial_choice(*args, local@),
        args.node_id matches Some(id) ==> res.node_id@ == id@ && res.node_is_named,
        args.node_id is None ==> res.node_id@ == local.node_id@ && !res.node_is_named,
        args.token matches Some(token) ==> res.token@ == token@,
        args.token is None ==> res.token@ == local.token@,
        args.relay matches Some(relay) ==> optional_text(res.relay) == Some(relay@),
        args.relay is None && args.node_id is None ==> optional_text(res.relay) == optional_text(
            local.relay,
        ),
        args.relay is None && args.node_id is Some ==> res.relay is None,
{
    let token = match &args.token {
        Some(token) => token.clone(),
        None => local.token.clone(),
    };
    let node_id = match &args.node_id {
        Some(id) => id.clone(),
        None => local.node_id.clone(),
    };
    let relay = match (&args.relay, &args.node_id) {
        (Some(relay), _) => Some(relay.clone()),
        (None, None) => match &local.relay {
            Some(relay) => Some(relay.clone()),
            None => None,
        },
        (None, Some(_)) => None,
    };
    DialChoice { node_id, node_is_named: args.node_id.is_some(), token, relay }
}

/// The public key of a node.
#[derive(Clone, Copy, Debug, PartialEq, Eq)]
pub struct NodeId {
    pub bytes: [u8; 32],
}

impl View for NodeId {
    type V = Seq<u8>;

    open spec fn view(&self) -> Seq<u8> {
        self.bytes@
    }
}

impl NodeId {
    /// The key in hexadecimal, as nodes are written.
    pub fn to_text(&self) -> (res: String)
        ensures
            res@ == hex_text(self@),
            res@ == hex_text(self.bytes@),
    {
        hex_encode(vstd::array::array_as_slice(&self.bytes))
    }
}

/// The bytes of a node that was read, or why none was read.
pub open spec fn node_model(read: Result<NodeId, String>) -> Result<Seq<u8>, Seq<char>> {
    match read {
        Ok(id) => Ok(id@),
        Err(cause) => Err(cause@),
    }
}

/// The key that iroh's `PublicKey` reads from a text or, where it reads none, the
/// text of its error.
pub uninterp spec fn public_key(text: Seq<char>) -> Result<Seq<u8>, Seq<char>>;

/// Calls the `FromStr` of `iroh::PublicKey` and takes the bytes of the key:
/// whether a text is a key, which it is, and what is said of it where it is none,
/// depends on the text alone.
#[verifier::external_body]
fn parse_public_key(text: &str) -> (res: Result<NodeId, String>)
    ensures
        node_model(res) == public_key(text@),
{
    match text.parse::<iroh::PublicKey>() {
        Ok(key) => Ok(NodeId { bytes: *key.as_bytes() }),
        Err(error) => Err(error.to_string()),
    }
}

/// The characters of a URL that was read, or why none was read.
pub open spec fn url_model(read: Result<String, String>) -> Result<Seq<char>, Seq<char>> {
    match read {
        Ok(url) => Ok(url@),
        Err(cause) => Err(cause@),
    }
}

/// The URL that iroh's `RelayUrl` reads from a text, written out, or, where it
/// reads none, the text of its error.
pub uninterp spec fn relay_url(text: Seq<char>) -> Result<Seq<char>, Seq<char>>;

/// Calls the `FromStr` of `iroh::RelayUrl` and writes the URL out again: whether
/// a text is a URL, which it is, and what is said of it where it is none, depends
/// on the text alone. The error has no source, so its own text is all that a user
/// is told of the cause.
#[verifier::external_body]
fn parse_relay_url(text: &str) -> (res: Result<String, String>)
    ensures
        url_model(res) == relay_url(text@),
{
    match text.parse::<iroh::RelayUrl>() {
        Ok(url) => Ok(url.to_string()),
        Err(error) => Err(error.to_string()),
    }
}

/// The error for a node that is no key, which says where it was named.
pub open spec fn node_error(choice: DialChoiceModel, cause: Seq<char>) -> ProbeErrorModel {
    if choice.node_is_named {
        ProbeErrorModel::NodeIdArgument { text: choice.node_id, cause }
    } else {
        ProbeErrorModel::NodeIdPayload { text: choice.node_id, cause }
    }
}

/// The node of a choice, where `parsed` is the key that its name was read as.
pub fn node_of_choice(choice: &DialChoice, parsed: Result<NodeId, String>) -> (res: Result<
    NodeId,
    ProbeError,
>)
    ensures
        match parsed {
            Ok(node) => res == Ok::<NodeId, ProbeError>(node),
            Err(cause) => {
                &&& probe_error_of(res) == Some(node_error(choice@, cause@))
                &&& choice.node_is_named ==> (res matches Err(
                    ProbeError::NodeIdArgument { text, cause: told },
                ) && text@ == choice.node_id@ && told@ == cause@)
                &&& !choice.node_is_named ==> (res matches Err(
                    ProbeError::NodeIdPayload { text, cause: told },
                ) && text@ == choice.node_id@ && told@ == cause@)
            },
        },
{
    match parsed {
        Ok(node) => Ok(node),
        Err(cause) => {
            let text = choice.node_id.clone();
            if choice.node_is_named {
                Err(ProbeError::NodeIdArgument { text, cause })
            } else {
                Err(ProbeError::NodeIdPayload { text, cause })
            }
        },
    }
}

/// The node of a choice.
pub fn dialed_node(choice: &DialChoice) -> (res: Result<NodeId, ProbeError>)
    ensures
        match public_key(choice@.node_id) {
            Ok(key) => res matches Ok(node) && node@ == key && node.bytes@ == key,
            Err(cause) => probe_error_of(res) == Some(node_error(choice@, cause)),
        },
{
    let parsed = parse_public_key(choice.node_id.as_str());
    node_of_choice(choice, parsed)
}

/// Where a node is found: by its key and, where one is named, by a relay.
pub struct EndpointAddr {
    pub id: NodeId,
    pub relay_url: Option<String>,
}

/// The address of a node behind `relay`, where `parsed` is the URL that this
/// was read as.
pub fn behind_relay(id: NodeId, relay: &str, parsed: Result<String, String>) -> (res: Result<
    EndpointAddr,
    ProbeError,
>)
    ensures
        match parsed {
            Ok(url) => res == Ok::<EndpointAddr, ProbeError>(
                (EndpointAddr { id, relay_url: Some(url) }),
            ),
            Err(cause) => probe_error_of(res) == Some(
                (ProbeErrorModel::RelayUrl { text: relay@, cause: cause@ }),
            ),
        },
{
    match parsed {
        Ok(url) => Ok(EndpointAddr { id, relay_url: Some(url) }),
        Err(cause) => Err(ProbeError::RelayUrl { text: relay.to_owned(), cause }),
    }
}

/// The address of a node.
pub fn endpoint_addr(id: NodeId, relay: Option<&str>) -> (res: Result<EndpointAddr, ProbeError>)
    ensures
        match relay {
            None => res == Ok::<EndpointAddr, ProbeError>((EndpointAddr { id, relay_url: None })),
            Some(text) => match relay_url(text@) {
                Ok(url) => res matches Ok(addr) && addr.id == id && optional_text(addr.relay_url)
                    == Some(url),
                Err(cause) => probe_error_of(res) == Some(
                    (ProbeErrorModel::RelayUrl { text: text@, cause }),
                ),
            },
        },
{
    match relay {
        None => Ok(EndpointAddr { id, relay_url: None }),
        Some(text) => {
            let parsed = parse_relay_url(text);
            behind_relay(id, text, parsed)
        },
    }
}

/// What the user is told before a node is dialed. The token is not shown.
pub open spec fn dialing(node: Seq<u8>, choice: DialChoiceModel) -> Seq<char> {
    "probe: dialing node_id="@ + hex_text(node) + " token="@ + short_form(choice.token)
        + " relay="@ + (match choice.relay {
        Some(relay) => relay,
        None => "<iroh default>"@,
    })
}

/// Tells the user which node is dialed.
pub fn dialing_notice(node: &NodeId, choice: &DialChoice) -> (res: String)
    ensures
        res@ == dialing(node@, choice@),
        res@ == "probe: dialing node_id="@ + hex_text(node.bytes@) + " token="@ + hex_text(
            sha256(encode_utf8(choice.token@)).take(4),
        ) + " relay="@ + (match choice.relay {
            Some(relay) => relay@,
            None => "<iroh default>"@,
        }),
{
    let mut text = "probe: dialing node_id=".to_owned();
    text.append(node.to_text().as_str());
    text.append(" token=");
    text.append(short_token(choice.token.as_str()).as_str());
    text.append(" relay=");
    match &choice.relay {
        Some(relay) => text.append(relay.as_str()),
        None => text.append("<iroh default>"),
    }
    text
}

/// What to do on a connection.
pub enum ProbePlan {
    ListAgents,
    /// Probe the agent once for each of these places to resume behind, each on a
    /// stream of its own.
    Agent { agent: String, resumes: Vec<Option<u64>> },
}

/// What to do on a connection: without an agent, list the agents; with one,
/// probe it, and a second time where a second stream is asked for.
pub fn probe_plan(args: &ProbeArgs) -> (res: ProbePlan)
    ensures
        match args.agent {
            None => res is ListAgents,
            Some(name) => {
                &&& res matches ProbePlan::Agent { agent, resumes }
                &&& agent@ == name@
                &&& resumes@ == (match args.repeat_resume_from {
                    Some(seq) => seq![args.resume_from, Some(seq)],
                    None => seq![args.resume_from],
                })
            },
        },
{
    match &args.agent {
        None => ProbePlan::ListAgents,
        Some(name) => {
            let mut resumes: Vec<Option<u64>> = Vec::new();
            resumes.push(args.resume_from);
            if let Some(seq) = args.repeat_resume_from {
                resumes.push(Some(seq));
                assert(resumes@ =~= seq![args.resume_from, Some(seq)]);
            } else {
                assert(resumes@ =~= seq![args.resume_from]);
            }
            ProbePlan::Agent { agent: name.clone(), resumes }
        },
    }
}

/// A remote node that is named together with a token is dialed without anything
/// of this computer: neither its node, its token nor its relay is of any matter.
pub proof fn a_named_remote_needs_nothing_local(
    args: ProbeArgs,
    local: PairPayloadModel,
    other: PairPayloadModel,
)
    requires
        args.node_id is Some,
        args.token is Some,
    ensures
        dial_choice(args, local) == dial_choice(args, other),
{
}

/// A probe without arguments dials what a phone would that scanned the QR code.
pub proof fn without_arguments_the_pair_payload_is_dialed(args: ProbeArgs, local: PairPayloadModel)
    requires
        args.node_id is None,
        args.token is None,
        args.relay is None,
    ensures
        dial_choice(args, local).node_id == local.node_id,
        dial_choice(args, local).token == local.token,
        dial_choice(args, local).relay == local.relay,
{
}

/// The relay of this computer is never used to reach a node that was named.
pub proof fn the_local_relay_is_for_the_local_node(args: ProbeArgs, local: PairPayloadModel)
    requires
        args.node_id is Some,
        args.relay is None,
    ensures
        dial_choice(args, local).relay is None,
{
}

/// What the arguments name is what is dialed, and what they do not name is taken
/// from this computer.
pub proof fn what_is_named_is_dialed(args: ProbeArgs, local: PairPayloadModel)
    ensures
        args.node_id matches Some(id) ==> dial_choice(args, local).node_id == id@,
        args.node_id is None ==> dial_choice(args, local).node_id == local.node_id,
        dial_choice(args, local).node_is_named <==> args.node_id is Some,
        args.token matches Some(token) ==> dial_choice(args, local).token == token@,
        args.token is None ==> dial_choice(args, local).token == local.token,
        args.relay matches Some(relay) ==> dial_choice(args, local).relay == Some(relay@),
{
}

/// The error for a node that is no key names the node as it was written, where it
/// was written, and the cause.
pub proof fn node_errors_say_where_the_node_was_named(choice: DialChoiceModel, cause: Seq<char>)
    ensures
        choice.node_is_named ==> node_error(choice, cause) == (ProbeErrorModel::NodeIdArgument {
            text: choice.node_id,
            cause,
        }),
        !choice.node_is_named ==> node_error(choice, cause) == (ProbeErrorModel::NodeIdPayload {
            text: choice.node_id,
            cause,
        }),
{
}

/// What the user is told of a token is its short form and nothing else: tokens of
/// the same short form cannot be told apart by it.
pub proof fn tokens_are_told_by_their_short_form_alone(
    node: Seq<u8>,
    choice: DialChoiceModel,
    token: Seq<char>,
)
    requires
        sha256(encode_utf8(token)).take(4) == sha256(encode_utf8(choice.token)).take(4),
    ensures
        dialing(node, DialChoiceModel { token, ..choice }) == dialing(node, choice),
{
}

} // verus!
