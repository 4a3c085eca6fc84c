use alleycat::amp_index::{
    entry_to_thread, source_kind_to_session_source, AmpSessionRef, GitInfo, IndexEntry,
    SessionSource, ThreadSourceKind, ThreadStatus, CLI_VERSION,
};
use alleycat::amp_scan::{
    entry_from_thread_file, entry_from_value, first_message_preview, scan_thread_dir,
    value_to_millis, ThreadFile,
};
use alleycat::json::{object, text_value, Json};
use alleycat::os_path::{is_file_name, is_thread_file, stem_text, FilePath, OsPath};
use alleycat::text::{first_line, headline, same_text};
use alleycat::threads_dir::{amp_threads_dir, expand_tilde, AmpHydrator, ThreadsDir};

fn path(text: &str) -> OsPath {
    OsPath { bytes: text.as_bytes().to_vec() }
}

fn at(dir: &str, name: &str) -> FilePath {
    FilePath { dir: dir.as_bytes().to_vec(), name: name.as_bytes().to_vec() }
}

fn obj(members: Vec<(&str, Json)>) -> Json {
    object(members.into_iter().map(|(key, value)| (key.to_string(), value)).collect())
}

fn text_block(text: &str) -> Json {
    obj(vec![("type", text_value("text")), ("text", text_value(text))])
}

fn thread(messages: Vec<Json>) -> Json {
    obj(vec![("messages", Json::Array(messages))])
}

fn message(content: Json) -> Json {
    obj(vec![("content", content)])
}

fn read(raw: &str) -> IndexEntry {
    entry_from_thread_file(&at("/t/", "T-9.json"), raw).expect("a row")
}

#[test]
fn headlines() {
    assert_eq!(headline(""), "");
    assert_eq!(headline("\nsecond"), "");
    assert_eq!(headline("  one \r\ntwo"), "one");
    assert_eq!(headline("\u{3000}\u{a0}x y\u{2003}"), "x y");
    assert_eq!(headline("a\rb\nc"), "a\rb");
    assert_eq!(headline("\u{200b}x"), "\u{200b}x");
}

#[test]
fn first_lines() {
    for text in ["", "\n", "\r\n", "\r", "a", "a\r", "a\r\r\nb", "a\n\nb", "\u{e9}\r\n\u{1f600}", "a\rb"] {
        assert_eq!(first_line(text), text.lines().next().unwrap_or(""));
    }
    assert_eq!(first_line("a\r\r\nb"), "a\r");
    assert_eq!(first_line("a\r"), "a\r");
    let long = "x".repeat(1_000_000);
    assert_eq!(first_line(&long), long);
}

#[test]
fn texts_compare_by_their_characters() {
    assert!(same_text("caf\u{e9}", "caf\u{e9}"));
    assert!(!same_text("cafe", "caf\u{e9}"));
    assert!(!same_text("a", "ab"));
    assert!(same_text("", ""));
}

#[test]
fn thread_file_names() {
    assert!(is_thread_file(b"T-1.json"));
    assert!(is_thread_file(b"a..json"));
    assert!(!is_thread_file(b".json"));
    assert!(!is_thread_file(b"json"));
    assert!(!is_thread_file(b"T-1.JSON"));
    assert!(!is_thread_file(b"T-1.jsonl"));
    assert!(!is_thread_file(b"T-1.json.tmp"));
    assert!(!is_thread_file(b".."));
    assert!(!is_thread_file(b""));
    assert_eq!(stem_text(b"T-1.json"), "T-1");
    assert_eq!(stem_text(b"a..json"), "a.");
    assert_eq!(stem_text(b".json"), ".json");
    assert_eq!(stem_text(b".."), "..");
    assert_eq!(stem_text(b"plain"), "plain");
    assert_eq!(stem_text(b"\xff.json"), "\u{fffd}");
}

#[test]
fn times_are_seconds_or_milliseconds() {
    assert_eq!(value_to_millis(&Json::Int(1_700_000_000)), Some(1_700_000_000_000));
    assert_eq!(value_to_millis(&Json::Int(9_999_999_999)), Some(9_999_999_999_000));
    assert_eq!(value_to_millis(&Json::Int(10_000_000_000)), Some(10_000_000_000));
    assert_eq!(value_to_millis(&Json::Int(1_700_000_000_123)), Some(1_700_000_000_123));
    assert_eq!(value_to_millis(&Json::Int(-1)), Some(-1000));
    assert_eq!(value_to_millis(&text_value("1970-01-01T00:00:01.250Z")), Some(1250));
    assert_eq!(value_to_millis(&text_value("1970-01-01T01:00:00+01:00")), Some(0));
    assert_eq!(value_to_millis(&text_value("yesterday")), None);
    assert_eq!(value_to_millis(&Json::Bool(true)), None);
    assert_eq!(value_to_millis(&Json::Null), None);
}

#[test]
fn previews_are_first_lines() {
    let preview = |messages: Vec<Json>| first_message_preview(&thread(messages));
    assert_eq!(preview(vec![message(text_value(" hi \nthere"))]), Some("hi".to_string()));
    assert_eq!(
        preview(vec![message(text_value("  ")), message(text_value("x"))]),
        Some("x".to_string())
    );
    assert_eq!(
        preview(vec![obj(vec![("message", message(text_value("inner")))])]),
        Some("inner".to_string())
    );
    let image = obj(vec![("type", text_value("image")), ("text", text_value("no"))]);
    assert_eq!(
        preview(vec![message(Json::Array(vec![image, text_block("\n"), text_block("yes")]))]),
        Some("yes".to_string())
    );
    assert_eq!(preview(vec![message(Json::Null), message(text_value("x"))]), Some("x".to_string()));
}

#[test]
fn message_without_content_ends_the_search() {
    let bare = obj(vec![("role", text_value("user"))]);
    assert_eq!(first_message_preview(&thread(vec![bare, message(text_value("x"))])), None);
    assert_eq!(first_message_preview(&thread(vec![])), None);
    assert_eq!(first_message_preview(&obj(vec![("messages", Json::Null)])), None);
    assert_eq!(first_message_preview(&Json::Array(vec![])), None);
}

#[test]
fn row_of_a_full_thread() {
    let row = read(
        r#"{"id":"T-1","title":" My thread ","created":1700000000,"createdAt":5,
            "updatedAt":"2023-11-14T22:13:21Z","cwd":"/work",
            "messages":[{"role":"user","content":[{"type":"text","text":"Hello\nworld"}]}]}"#,
    );
    assert_eq!(row.thread_id, "T-1");
    assert_eq!(row.name, Some(" My thread ".to_string()));
    assert_eq!(row.preview, "Hello");
    assert_eq!(row.created_at, 1_700_000_000_000);
    assert_eq!(row.updated_at, 1_700_000_001_000);
    assert_eq!(row.cwd, "/work");
    assert!(!row.archived);
    assert_eq!(row.forked_from_id, None);
    assert_eq!(row.model_provider, "amp");
    assert_eq!(row.source, ThreadSourceKind::AppServer);
    assert_eq!(
        row.metadata,
        AmpSessionRef {
            amp_thread_id: Some("T-1".to_string()),
            amp_thread_path: Some(path("/t/T-9.json")),
            model: None,
            reasoning_effort: None,
        }
    );
}

#[test]
fn row_of_an_empty_thread() {
    let row = entry_from_value(&Json::Object(vec![]), &at("/t/", "T-9.json"), 42);
    assert_eq!(row.thread_id, "T-9");
    assert_eq!(row.name, None);
    assert_eq!(row.preview, "(no messages)");
    assert_eq!(row.created_at, 42);
    assert_eq!(row.updated_at, 42);
    assert_eq!(row.cwd, "");
    assert_eq!(row.metadata.amp_thread_id, Some("T-9".to_string()));
}

#[test]
fn row_falls_back_by_member() {
    let row = read(r#"{"id":7,"title":"  ","createdAt":3,"updated":4,"workingDirectory":"/w"}"#);
    assert_eq!(row.thread_id, "T-9");
    assert_eq!(row.name, None);
    assert_eq!(row.created_at, 3000);
    assert_eq!(row.updated_at, 4000);
    assert_eq!(row.cwd, "/w");
    let row = read(r#"{"title":"T","created":5,"cwd":1,"workingDirectory":"/w"}"#);
    assert_eq!(row.preview, "T");
    assert_eq!(row.updated_at, 5000);
    assert_eq!(row.cwd, "");
}

#[test]
fn row_without_times_is_dated_now() {
    let row = read(r#"{"created":null,"createdAt":5}"#);
    assert!(row.created_at > 1_600_000_000_000);
    assert_eq!(row.updated_at, row.created_at);
}

#[test]
fn text_that_is_no_json_gives_no_row() {
    assert!(entry_from_thread_file(&at("/t/", "x.json"), "{").is_none());
}

#[test]
fn thread_that_tells_no_time_gives_no_row() {
    let scan = |raw: &str| entry_from_thread_file(&at("/t/", "x.json"), raw);
    let row = scan(r#"{"created":-9223372036854775}"#).unwrap();
    assert_eq!(row.created_at, -9_223_372_036_854_775_000);
    assert!(scan(r#"{"created":-9223372036854776}"#).is_none());
    assert!(scan(r#"{"updated":-9223372036854776}"#).is_none());
    assert!(scan(r#"{"created":1,"createdAt":-9223372036854776}"#).is_some());
    assert!(scan(r#"{"created":-9e18}"#).is_some());
}

#[test]
fn id_comes_from_the_end_of_the_path() {
    let row = entry_from_thread_file(&at("C:\\t\\", "T-3.json"), "{}").unwrap();
    assert_eq!(row.thread_id, "T-3");
    assert_eq!(row.metadata.amp_thread_path, Some(path("C:\\t\\T-3.json")));
    assert!(entry_from_thread_file(&at("/t/", ".."), "{}").is_none());
    assert!(entry_from_thread_file(&at("/t/", ""), "{}").is_none());
    let row = entry_from_thread_file(&at("/t/", ".."), r#"{"id":"T"}"#).unwrap();
    assert_eq!(row.thread_id, "T");
    assert!(is_file_name(b"..."));
    assert!(!is_file_name(b"."));
}

fn file(name: &str, raw: Option<&str>) -> ThreadFile {
    ThreadFile { path: at("/t/", name), raw: raw.map(|text| text.to_string()) }
}

#[test]
fn scan_keeps_the_order_and_passes_over_the_rest() {
    let rows = scan_thread_dir(&vec![
        file("b.json", Some("{}")),
        file("notes.txt", Some("{}")),
        file("broken.json", Some("{")),
        file("locked.json", None),
        file("old.json", Some(r#"{"created":-9223372036854776}"#)),
        file("a.json", Some(r#"{"id":"A"}"#)),
    ]);
    let ids: Vec<&str> = rows.iter().map(|row| row.thread_id.as_str()).collect();
    assert_eq!(ids, vec!["b", "A"]);
    assert!(scan_thread_dir(&vec![]).is_empty());
}

#[test]
fn thread_of_a_scanned_row() {
    let row = read(r#"{"id":"T-1","created":1}"#);
    let git = GitInfo { sha: Some("abc".to_string()), branch: None, origin_url: None };
    let seen = entry_to_thread(&row, Some(git));
    assert_eq!(seen.id, "T-1");
    assert_eq!(seen.session_id, "T-1");
    assert_eq!(seen.path, Some("/t/T-9.json".to_string()));
    assert_eq!(seen.status, ThreadStatus::NotLoaded);
    assert_eq!(seen.source, SessionSource::AppServer);
    assert_eq!(seen.cli_version, CLI_VERSION);
    assert_eq!(seen.git_info.unwrap().sha, Some("abc".to_string()));
    assert_eq!(seen.created_at, 1000);
    assert!(!seen.ephemeral);
    assert!(seen.turns.is_empty());
    assert_eq!((seen.thread_source, seen.agent_nickname, seen.agent_role), (None, None, None));
}

#[test]
fn thread_of_a_row_without_amp_thread() {
    let mut row = read(r#"{"id":"T-1"}"#);
    row.metadata.amp_thread_id = None;
    row.metadata.amp_thread_path = Some(OsPath { bytes: b"/t/\xff".to_vec() });
    row.forked_from_id = Some("T-0".to_string());
    row.source = ThreadSourceKind::Cli;
    let seen = entry_to_thread(&row, None);
    assert_eq!(seen.session_id, "T-1");
    assert_eq!(seen.path, Some("/t/\u{fffd}".to_string()));
    assert_eq!(seen.forked_from_id, Some("T-0".to_string()));
    assert_eq!(seen.source, SessionSource::Cli);
    row.metadata.amp_thread_path = None;
    assert_eq!(entry_to_thread(&row, None).path, None);
}

#[test]
fn sources_that_clients_do_not_know() {
    assert_eq!(source_kind_to_session_source(ThreadSourceKind::VsCode), SessionSource::VsCode);
    assert_eq!(source_kind_to_session_source(ThreadSourceKind::Exec), SessionSource::Exec);
    assert_eq!(source_kind_to_session_source(ThreadSourceKind::SubAgent), SessionSource::AppServer);
    assert_eq!(source_kind_to_session_source(ThreadSourceKind::Unknown), SessionSource::AppServer);
}

fn parts(dir: Option<ThreadsDir>) -> Vec<String> {
    match dir {
        Some(ThreadsDir::UnderHome(parts)) => parts,
        _ => panic!("not below the home directory"),
    }
}

fn spelled(dir: ThreadsDir) -> String {
    match dir {
        ThreadsDir::Spelled(text) => text,
        _ => panic!("not taken as it is spelled"),
    }
}

#[test]
fn tilde_is_expanded() {
    assert!(matches!(expand_tilde("~", true), ThreadsDir::Home));
    assert_eq!(parts(Some(expand_tilde("~/a/b", true))), vec!["a/b"]);
    assert_eq!(parts(Some(expand_tilde("~/", true))), vec![""]);
    assert_eq!(spelled(expand_tilde("~user/a", true)), "~user/a");
    assert_eq!(spelled(expand_tilde("/a/~", true)), "/a/~");
    assert_eq!(spelled(expand_tilde("", true)), "");
    assert_eq!(spelled(expand_tilde("~", false)), "~");
    assert_eq!(spelled(expand_tilde("~/a", false)), "~/a");
}

#[test]
fn threads_dir_is_chosen() {
    assert_eq!(parts(amp_threads_dir(None, true)), vec![".local", "share", "amp", "threads"]);
    assert!(amp_threads_dir(None, false).is_none());
    assert_eq!(spelled(amp_threads_dir(Some("/x"), false).unwrap()), "/x");
    assert_eq!(parts(amp_threads_dir(Some("~/x"), true)), vec!["x"]);
}

#[test]
fn override_dir_goes_first() {
    let hydrator = AmpHydrator::with_override_dir(path("/o"));
    match hydrator.scanned_dir(Some("/x"), true) {
        Some(ThreadsDir::Given(dir)) => assert_eq!(dir, path("/o")),
        _ => panic!("not the override"),
    }
    assert_eq!(spelled(AmpHydrator::new().scanned_dir(Some("/x"), true).unwrap()), "/x");
    assert!(AmpHydrator::default().scanned_dir(None, false).is_none());
}

#[test]
fn members_of_documents() {
    let document = obj(vec![("a", Json::Int(1)), ("b", text_value("x")), ("a", Json::Int(2))]);
    assert!(document.get("a").unwrap().is_int(2));
    assert!(!document.get("a").unwrap().is_int(1));
    assert!(document.get("c").is_none());
    assert_eq!(document.get_text("b"), Some("x"));
    assert_eq!(document.get_text("a"), None);
    assert!(document.get_either("c", "a").unwrap().is_int(2));
    assert!(Json::Null.get("a").is_none());
    assert!(Json::Array(vec![Json::Null]).as_array().unwrap().len() == 1);
    assert!(document.as_array().is_none());
}
