use alleycat::json::{object, text_value, Json};
use alleycat::probe_args::{
    behind_relay, choose_dial, dialed_node, dialing_notice, dials_local_daemon, endpoint_addr,
    local_pair_payload, node_of_choice, probe_plan, NodeId, PairPayload, ProbeArgs, ProbePlan,
};
use alleycat::probe_error::{ProbeError, ReadError};
use alleycat::probe_session::{NextMove, ProbeNotice, ProbeSession, ProbeStep};
use alleycat::probe_wire::{
    check_connected, connect_request, connected_notice, decode_line, inbound_text, initialize_request,
    initialized_notification, json_line, list_agents_request, method_request, outbound_text,
    is_response_to, parse_params, read_frame, response_error, second_stream_notice,
    ReadOutcome, Request, Response, Resume, SessionInfo,
};
use alleycat::token::{fingerprint, short_token};

const KEY: &str = "d75a980182b10ab7d54bfed3c964073a0ee172f3daa62325af021a68f707511a";

const SECOND: u64 = 1_000_000_000;

fn payload() -> PairPayload {
    PairPayload {
        node_id: KEY.to_string(),
        token: "local".to_string(),
        relay: Some("https://relay.example.com".to_string()),
    }
}

fn line(text: &str) -> ReadOutcome {
    ReadOutcome::Line(text.to_string())
}

fn written(document: &Json) -> String {
    String::from_utf8(json_line(document)).unwrap()
}

#[test]
fn arguments_have_defaults() {
    let args = ProbeArgs::default();
    assert_eq!(args.params, "{}");
    assert_eq!(args.linger_secs, 5);
    assert_eq!(args.timeout_secs, 30);
    assert!(args.agent.is_none() && args.resume_from.is_none());
}

#[test]
fn local_daemon_is_dialed_by_default() {
    let args = ProbeArgs::default();
    assert!(dials_local_daemon(&args));
    let choice = choose_dial(&args, &payload());
    assert_eq!(choice.node_id, KEY);
    assert!(!choice.node_is_named);
    assert_eq!(choice.token, "local");
    assert_eq!(choice.relay, Some("https://relay.example.com".to_string()));
}

#[test]
fn named_node_does_not_use_the_local_relay() {
    let mut args = ProbeArgs::default();
    args.node_id = Some("remote".to_string());
    args.token = Some("theirs".to_string());
    assert!(!dials_local_daemon(&args));
    let choice = choose_dial(&args, &payload());
    assert_eq!(choice.node_id, "remote");
    assert!(choice.node_is_named);
    assert_eq!(choice.token, "theirs");
    assert_eq!(choice.relay, None);
    args.relay = Some("https://r".to_string());
    assert_eq!(choose_dial(&args, &payload()).relay, Some("https://r".to_string()));
    args.node_id = None;
    assert_eq!(choose_dial(&args, &payload()).relay, Some("https://r".to_string()));
}

#[test]
fn daemon_payload_is_preferred_where_asked_for() {
    let other = || PairPayload { node_id: "n".to_string(), token: "t".to_string(), relay: None };
    assert_eq!(local_pair_payload(true, Some(other()), payload()).token, "t");
    assert_eq!(local_pair_payload(true, None, payload()).token, "local");
    assert_eq!(local_pair_payload(false, Some(other()), payload()).token, "local");
}

#[test]
fn nodes_are_public_keys() {
    let choice = choose_dial(&ProbeArgs::default(), &payload());
    let node = dialed_node(&choice).unwrap();
    assert_eq!(node.bytes[0], 0xd7);
    assert_eq!(node.bytes[31], 0x1a);
    assert_eq!(node.to_text(), KEY);
    assert_eq!(
        dialing_notice(&node, &choice),
        format!(
            "probe: dialing node_id={KEY} token={} relay=https://relay.example.com",
            short_token("local")
        )
    );
}

#[test]
fn node_that_is_no_key_is_an_error() {
    let mut args = ProbeArgs::default();
    args.node_id = Some("a\"b".to_string());
    let choice = choose_dial(&args, &payload());
    let error = dialed_node(&choice).unwrap_err();
    assert!(matches!(&error, ProbeError::NodeIdArgument { text, .. } if text == "a\"b"));
    assert_eq!(error.cause(), Some("invalid length".to_string()));
    assert_eq!(error.to_string(), r#"parsing --node-id "a\"b" as iroh public key"#);
    let mut local = payload();
    local.node_id = "x".to_string();
    let choice = choose_dial(&ProbeArgs::default(), &local);
    let error = dialed_node(&choice).unwrap_err();
    assert!(matches!(&error, ProbeError::NodeIdPayload { text, .. } if text == "x"));
    assert_eq!(error.to_string(), r#"parsing pair payload node_id "x""#);
    let node = NodeId { bytes: [7; 32] };
    assert_eq!(node_of_choice(&choice, Ok(node)), Ok(node));
    assert_eq!(
        node_of_choice(&choice, Err("why".to_string())),
        Err(ProbeError::NodeIdPayload { text: "x".to_string(), cause: "why".to_string() })
    );
}

#[test]
fn relays_are_urls() {
    let node = NodeId { bytes: [7; 32] };
    assert_eq!(endpoint_addr(node, None).unwrap().relay_url, None);
    let addr = endpoint_addr(node, Some("https://relay.example.com")).unwrap();
    assert_eq!(addr.id, node);
    assert_eq!(addr.relay_url, Some("https://relay.example.com/".to_string()));
    let error = match endpoint_addr(node, Some("not a url")) {
        Ok(_) => panic!("not a URL"),
        Err(error) => error,
    };
    assert_eq!(error.to_string(), r#"parsing relay URL "not a url""#);
    assert_eq!(error.cause(), Some("Failed to parse relay URL".to_string()));
    let outside = "not a url".parse::<iroh::RelayUrl>().unwrap_err();
    assert!(std::error::Error::source(&outside).is_none());
    assert_eq!(
        format!("{:#}", anyhow::Error::from(outside).context(error.to_string())),
        format!("{}: {}", error.to_string(), error.cause().unwrap())
    );
    let addr = behind_relay(node, "r", Ok("u".to_string())).unwrap();
    assert_eq!(addr.relay_url, Some("u".to_string()));
    match behind_relay(node, "r", Err("why".to_string())) {
        Ok(_) => panic!("not a URL"),
        Err(error) => assert_eq!(
            error,
            ProbeError::RelayUrl { text: "r".to_string(), cause: "why".to_string() }
        ),
    }
}

#[test]
fn tokens_are_shown_by_their_digest() {
    assert_eq!(short_token("abc"), "ba7816bf");
    assert_eq!(short_token(""), "e3b0c442");
    assert_eq!(fingerprint(&[0x00, 0x0f, 0xa0, 0xff, 0x12]), "000fa0ff");
}

#[test]
fn dialing_does_not_show_the_token() {
    let mut local = payload();
    local.relay = None;
    let choice = choose_dial(&ProbeArgs::default(), &local);
    let notice = dialing_notice(&NodeId { bytes: [0; 32] }, &choice);
    assert!(!notice.contains("local"));
    assert!(notice.contains("relay=<iroh default>"));
}

#[test]
fn plans() {
    let mut args = ProbeArgs::default();
    assert!(matches!(probe_plan(&args), ProbePlan::ListAgents));
    args.agent = Some("pi".to_string());
    args.resume_from = Some(3);
    match probe_plan(&args) {
        ProbePlan::Agent { agent, resumes } => {
            assert_eq!(agent, "pi");
            assert_eq!(resumes, vec![Some(3)]);
        }
        ProbePlan::ListAgents => panic!("an agent was named"),
    }
    args.resume_from = None;
    args.repeat_resume_from = Some(8);
    match probe_plan(&args) {
        ProbePlan::Agent { resumes, .. } => assert_eq!(resumes, vec![None, Some(8)]),
        ProbePlan::ListAgents => panic!("an agent was named"),
    }
}

#[test]
fn first_frames() {
    assert_eq!(
        list_agents_request("t"),
        Request::ListAgents { v: 1, token: "t".to_string() }
    );
    assert_eq!(
        connect_request("t", "pi", Some(4)),
        Request::Connect {
            v: 1,
            token: "t".to_string(),
            agent: "pi".to_string(),
            resume: Some(Resume { last_seq: 4 }),
        }
    );
    assert!(matches!(connect_request("t", "pi", None), Request::Connect { resume: None, .. }));
}

#[test]
fn refused_connections() {
    assert!(check_connected(Response { ok: true, error: Some("x".to_string()) }).is_ok());
    let refused = check_connected(Response { ok: false, error: Some("bad token".to_string()) });
    let error = refused.unwrap_err();
    assert_eq!(error.to_string(), "connect rejected: bad token");
    assert_eq!(error.cause(), None);
    let refused = check_connected(Response { ok: false, error: None });
    assert_eq!(refused.unwrap_err().to_string(), "connect rejected: <no error>");
}

#[test]
fn messages_are_lines() {
    assert_eq!(
        written(&initialize_request()),
        concat_lines(&[
            r#"{"id":1,"jsonrpc":"2.0","method":"initialize","params":{"capabilities":{},"#,
            r#""clientInfo":{"name":"alleycat-probe","title":"alleycat-probe","version":"0.1.0"}}}"#,
            "\n",
        ])
    );
    assert_eq!(
        written(&initialized_notification()),
        "{\"jsonrpc\":\"2.0\",\"method\":\"initialized\",\"params\":{}}\n"
    );
    assert_eq!(
        written(&method_request("a\nb", Json::Array(vec![Json::Null, Json::Bool(true)]))),
        "{\"id\":2,\"jsonrpc\":\"2.0\",\"method\":\"a\\nb\",\"params\":[null,true]}\n"
    );
}

fn concat_lines(parts: &[&str]) -> String {
    parts.concat()
}

#[test]
fn numbers_survive() {
    let text = "{\"a\":[0.1,-2.5e-9,18446744073709551615,-3,1.0]}";
    let document = parse_params(text).unwrap();
    assert_eq!(written(&document), "{\"a\":[0.1,-2.5e-9,18446744073709551615,-3,1.0]}\n");
}

#[test]
fn frames_are_shown() {
    let document = object(vec![("a".to_string(), Json::Int(1))]);
    assert_eq!(outbound_text(&document), "→ {\n  \"a\": 1\n}");
    assert_eq!(inbound_text(&document), "← {\n  \"a\": 1\n}");
}

#[test]
fn lines_are_read() {
    let error = |outcome: ReadOutcome| match read_frame(outcome) {
        Ok(_) => panic!("no frame"),
        Err(error) => error,
    };
    assert!(read_frame(line(" {\"id\":1}\r\n")).unwrap().get("id").unwrap().is_int(1));
    assert_eq!(error(line("")), ReadError::Closed);
    assert_eq!(error(line(" \r\n")), ReadError::Empty);
    assert_eq!(
        error(line(" {x\n")),
        ReadError::Malformed {
            line: "{x".to_string(),
            cause: "key must be a string at line 1 column 2".to_string(),
        }
    );
    assert_eq!(error(ReadOutcome::TimedOut), ReadError::TimedOut);
    let failed = error(ReadOutcome::Failed("reset".to_string()));
    assert_eq!(failed.to_string(), "reset");
    assert_eq!(ReadError::Closed.to_string(), "stream closed by peer");
    assert_eq!(ReadError::Empty.to_string(), "empty JSON line");
    assert_eq!(ReadError::TimedOut.to_string(), "timed out waiting for JSON line");
    assert_eq!(
        error(line(" {x\n")).to_string(),
        "decoding JSON-RPC line: {x: key must be a string at line 1 column 2"
    );
    assert!(decode_line("x", Ok(Json::Null)).is_ok());
    match decode_line("x", Err("why".to_string())) {
        Ok(_) => panic!("no frame"),
        Err(error) => assert_eq!(error.to_string(), "decoding JSON-RPC line: x: why"),
    }
}

#[test]
fn params_that_are_no_json_are_an_error() {
    let mut args = ProbeArgs::default();
    args.params = "{".to_string();
    let error = match ProbeSession::open(&args, "t", "pi", None) {
        Ok(_) => panic!("the parameters are no JSON"),
        Err(error) => error,
    };
    assert_eq!(
        error,
        ProbeError::Params {
            text: "{".to_string(),
            cause: "EOF while parsing an object at line 1 column 1".to_string(),
        }
    );
    assert_eq!(error.to_string(), "parsing --params \"{\" as JSON");
}

fn connected(args: &ProbeArgs) -> (ProbeSession, ProbeStep) {
    let (session, request) = ProbeSession::open(args, "t", "pi", Some(9)).unwrap();
    assert_eq!(request, connect_request("t", "pi", Some(9)));
    session.on_ack(Response { ok: true, error: None }).unwrap()
}

fn methods(step: &ProbeStep) -> Vec<&str> {
    step.sends.iter().map(|frame| frame.get_text("method").unwrap()).collect()
}

fn initialized(args: &ProbeArgs, now: u64) -> (ProbeSession, ProbeStep) {
    let (session, _) = connected(args);
    let (session, step) = read(session, "{\"id\":1}\n", now);
    assert_eq!(step.next, NextMove::ReportSent);
    session.on_sent(now)
}

fn read(session: ProbeSession, text: &str, now: u64) -> (ProbeSession, ProbeStep) {
    session.on_read(line(text), now)
}

#[test]
fn probe_runs_to_its_end() {
    let (session, step) = connected(&ProbeArgs::default());
    assert_eq!(methods(&step), vec!["initialize"]);
    assert_eq!(step.next, NextMove::Read(30 * SECOND as u128));

    let (session, step) = read(session, "{\"method\":\"note\"}\n", SECOND);
    assert!(step.sends.is_empty());
    assert_eq!(step.shown, Some("← {\n  \"method\": \"note\"\n}".to_string()));
    assert_eq!(step.next, NextMove::Read(30 * SECOND as u128));

    let (session, step) = read(session, "{\"id\":1}\n", 2 * SECOND);
    assert_eq!(methods(&step), vec!["initialized", "thread/list"]);
    assert_eq!(step.next, NextMove::ReportSent);

    let (session, step) = session.on_sent(2 * SECOND);
    assert!(step.sends.is_empty() && step.shown.is_none());
    assert_eq!(step.next, NextMove::Read(30 * SECOND as u128));

    let (session, step) = read(session, "{\"id\":2.0}\n", 12 * SECOND);
    assert_eq!(step.next, NextMove::Read(20 * SECOND as u128));

    let (session, step) = read(session, "{\"id\":2,\"result\":[]}\n", 13 * SECOND);
    assert!(matches!(step.notices.as_slice(), [ProbeNotice::Lingering(5)]));
    assert_eq!(step.next, NextMove::Read(5 * SECOND as u128));

    let (session, step) = read(session, "{\"method\":\"late\"}\n", 14 * SECOND);
    assert!(step.shown.is_some());
    assert_eq!(step.next, NextMove::Read(4 * SECOND as u128));

    let (_, step) = session.on_read(ReadOutcome::TimedOut, 18 * SECOND);
    assert_eq!(step.next, NextMove::End);
    assert!(step.notices.is_empty());
}

#[test]
fn named_method_and_params_are_sent() {
    let mut args = ProbeArgs::default();
    args.method = Some("thread/read".to_string());
    args.params = "{\"id\":\"T\"}".to_string();
    let (session, _) = connected(&args);
    let (_, step) = read(session, "{\"id\":1,\"result\":{}}\n", 0);
    assert_eq!(
        written(&step.sends[1]),
        "{\"id\":2,\"jsonrpc\":\"2.0\",\"method\":\"thread/read\",\"params\":{\"id\":\"T\"}}\n"
    );
}

#[test]
fn refused_probe_fails() {
    let session = ProbeSession::open_with(&ProbeArgs::default(), Json::Null);
    match session.on_ack(Response { ok: false, error: None }) {
        Ok(_) => panic!("the connection was refused"),
        Err(error) => assert_eq!(error, ProbeError::Rejected("<no error>".to_string())),
    }
}

#[test]
fn probe_fails_without_an_answer_to_initialize() {
    let (session, _) = connected(&ProbeArgs::default());
    let (_, step) = session.on_read(line(""), 1);
    assert!(step.sends.is_empty());
    match step.next {
        NextMove::Fail(error) => {
            assert_eq!(error, ProbeError::Initialize(ReadError::Closed));
            assert_eq!(error.to_string(), "reading initialize response");
            assert_eq!(error.cause(), Some("stream closed by peer".to_string()));
        }
        _ => panic!("the stream was closed"),
    }
}

#[test]
fn frame_with_another_id_is_no_answer_to_initialize() {
    for text in [
        "{\"id\":9,\"method\":\"x\"}\n",
        "{\"id\":9,\"result\":{}}\n",
        "{\"id\":null}\n",
        "{\"id\":\"1\",\"result\":{}}\n",
        "{\"id\":1,\"method\":\"x\"}\n",
    ] {
        let mut args = ProbeArgs::default();
        args.linger_secs = 0;
        let (session, _) = connected(&args);
        let (session, step) = read(session, text, SECOND);
        assert!(step.sends.is_empty());
        assert!(step.shown.is_some());
        assert_eq!(step.next, NextMove::Read(30 * SECOND as u128));
        let (_, step) = session.on_read(line(""), 2 * SECOND);
        assert!(step.sends.is_empty());
        assert_eq!(step.next, NextMove::Fail(ProbeError::Initialize(ReadError::Closed)));
    }
}

#[test]
fn initialize_that_fails_ends_the_probe() {
    let mut args = ProbeArgs::default();
    args.method = Some("thread/list".to_string());
    let (session, _) = connected(&args);
    let answer = "{\"id\":1,\"error\":{\"code\":-32603,\"message\":\"no\"}}\n";
    let (session, step) = read(session, answer, SECOND);
    assert!(step.sends.is_empty());
    assert!(step.shown.is_some());
    match step.next {
        NextMove::Fail(error) => {
            assert_eq!(error.to_string(), "initialize failed");
            assert_eq!(
                error.cause(),
                Some("{\n  \"code\": -32603,\n  \"message\": \"no\"\n}".to_string())
            );
        }
        _ => panic!("the agent did not initialize"),
    }
    let (_, step) = read(session, "{\"id\":1,\"result\":{}}\n", 2 * SECOND);
    assert!(step.sends.is_empty());
    assert_eq!(step.next, NextMove::End);
}

#[test]
fn null_error_is_no_error() {
    let (session, _) = connected(&ProbeArgs::default());
    let answer = "{\"id\":1,\"result\":{},\"error\":null}\n";
    let (_, step) = read(session, answer, SECOND);
    assert_eq!(methods(&step), vec!["initialized", "thread/list"]);
    assert_eq!(step.next, NextMove::ReportSent);
    let error = |value: Json| object(vec![("error".to_string(), value)]);
    assert!(response_error(&error(Json::Null)).is_none());
    assert!(response_error(&error(Json::Bool(false))).is_some());
    assert!(response_error(&Json::Null).is_none());
}

#[test]
fn connections_are_told() {
    assert_eq!(
        connected_notice("pi", &None, None),
        "probe: connect ok agent=pi resume_from=None; switching to JSONL"
    );
    let info = SessionInfo { attached: "Fresh".to_string(), current_seq: 12, floor_seq: 3 };
    assert_eq!(
        connected_notice("pi", &Some(info), Some(7)),
        "probe: connect ok agent=pi attached=Fresh current_seq=12 floor_seq=3 \
         resume_from=Some(7); switching to JSONL"
    );
    assert_eq!(
        second_stream_notice(40),
        "probe: opening second connect stream with resume_from=40"
    );
}

#[test]
fn request_of_the_agent_does_not_answer_the_method() {
    let (session, _) = initialized(&ProbeArgs::default(), 0);
    let (session, step) = read(session, "{\"id\":2,\"method\":\"ask\"}\n", 10 * SECOND);
    assert_eq!(step.next, NextMove::Read(20 * SECOND as u128));
    let (_, step) = read(session, "{\"id\":2,\"error\":{}}\n", 11 * SECOND);
    assert!(matches!(step.notices.as_slice(), [ProbeNotice::Lingering(5)]));
    let response = object(vec![("id".to_string(), Json::Int(2))]);
    assert!(is_response_to(&response, 2));
    assert!(!is_response_to(&response, 1));
    assert!(!is_response_to(&Json::Int(2), 2));
}

#[test]
fn lines_are_read_back() {
    let member = |key: &str, value: Json| (key.to_string(), value);
    let document = object(vec![
        member("z", Json::Array(vec![Json::Null, Json::Bool(false), Json::Int(i64::MIN)])),
        member("a", text_value("x\n\u{2028}\"\\ \u{1f600}")),
        member("z", Json::Int(i64::MAX)),
        member("wide", parse_params("18446744073709551615").unwrap()),
        member("deep", Json::Object(vec![member("", Json::Array(vec![]))])),
    ]);
    let written_line = written(&document);
    assert_eq!(written_line.matches('\n').count(), 1);
    let read = read_frame(line(&written_line)).unwrap();
    assert!(read.get("z").unwrap().is_int(i64::MAX));
    assert_eq!(read.get_text("a"), document.get_text("a"));
    assert!(read.get("deep").unwrap().get("").unwrap().as_array().unwrap().is_empty());
    assert_eq!(written(&read), written_line);
}

fn nested(depth: usize) -> Json {
    let mut document = Json::Int(1);
    for level in 0..depth {
        document = if level % 2 == 0 {
            Json::Array(vec![document])
        } else {
            object(vec![("k".to_string(), document)])
        };
    }
    document
}

#[test]
fn documents_are_read_back_up_to_a_depth() {
    let deepest = written(&nested(127));
    assert_eq!(written(&read_frame(line(&deepest)).unwrap()), deepest);
    assert!(read_frame(line(&written(&nested(128)))).is_err());
}

#[test]
fn probe_gives_up_waiting() {
    let (session, _) = initialized(&ProbeArgs::default(), 0);
    let (_, step) = session.on_frame(Err(ReadError::TimedOut), 30 * SECOND);
    assert!(matches!(
        step.notices.as_slice(),
        [
            ProbeNotice::ReadFailed(ReadError::TimedOut),
            ProbeNotice::NoResponse,
            ProbeNotice::Lingering(5)
        ]
    ));
    assert_eq!(step.next, NextMove::Read(5 * SECOND as u128));
}

#[test]
fn probe_without_time_ends_at_once() {
    let mut args = ProbeArgs::default();
    args.timeout_secs = 0;
    args.linger_secs = 0;
    let (_, step) = initialized(&args, 5);
    assert!(matches!(step.notices.as_slice(), [ProbeNotice::NoResponse]));
    assert_eq!(step.next, NextMove::End);
}

#[test]
fn frame_at_the_deadline_ends_the_waiting() {
    let (session, _) = initialized(&ProbeArgs::default(), 0);
    let (_, step) = read(session, "{\"id\":3}\n", 30 * SECOND);
    assert!(step.shown.is_some());
    assert!(matches!(
        step.notices.as_slice(),
        [ProbeNotice::NoResponse, ProbeNotice::Lingering(5)]
    ));
}

#[test]
fn text_values_are_strings() {
    assert_eq!(written(&text_value("a\"b")), "\"a\\\"b\"\n");
}

#[test]
fn waiting_starts_when_the_request_is_sent() {
    let (session, _) = connected(&ProbeArgs::default());
    let (session, _) = read(session, "{\"id\":1}\n", SECOND);
    let (session, step) = session.on_sent(7 * SECOND);
    assert_eq!(step.next, NextMove::Read(30 * SECOND as u128));
    let (_, step) = read(session, "{\"method\":\"note\"}\n", 36 * SECOND);
    assert_eq!(step.next, NextMove::Read(SECOND as u128));
}

#[test]
fn notices_have_their_texts() {
    let mut args = ProbeArgs::default();
    args.timeout_secs = 105;
    assert_eq!(
        ProbeNotice::NoResponse.text(&args),
        "probe: did not receive response to id=2 (thread/list) within 105s"
    );
    args.method = Some("m".to_string());
    args.timeout_secs = 0;
    assert_eq!(
        ProbeNotice::NoResponse.text(&args),
        "probe: did not receive response to id=2 (m) within 0s"
    );
    assert_eq!(
        ProbeNotice::Lingering(u64::MAX).text(&args),
        "probe: lingering 18446744073709551615s for trailing frames"
    );
    assert_eq!(
        ProbeNotice::ReadFailed(ReadError::Closed).text(&args),
        "probe: read error: stream closed by peer"
    );
}
