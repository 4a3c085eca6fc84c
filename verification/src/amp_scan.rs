//! Reading amp's thread files into rows of the index.
use vstd::prelude::*;
use crate::amp_index::{
    AmpSessionRef, EntryModel, GitInfo, IndexEntry, SessionRefModel, SessionSource,
    ThreadSourceKind, ThreadStatus, thread_of,
};
use crate::json::{Json, JsonModel, optional_ref_model, parse_json, parsed_json};
use crate::os_path::{
    FilePath, FilePathModel, is_file_name, is_thread_file, is_thread_file_name, names_a_file,
    stem_of, stem_text, thread_files_have_names,
};
use crate::text::{
    headline, headline_is_one_tight_line, headline_of, is_blank, line_one, lossy_utf8, optional_text,
    same_text, text_that_is_not_blank_is_not_empty, the_headline_stands_before_the_first_line_feed,
    trimmed, trimmed_text_is_tight,
};

verus! {

/// Numbers below this are seconds since 1970; the others are milliseconds.
pub const SECONDS_LIMIT: i64 = 10_000_000_000;

/// The milliseconds since 1970 of the moment that
/// `DateTime::parse_from_rfc3339` reads from a text, if it reads one.
pub uninterp spec fn rfc3339_millis(text: Seq<char>) -> Option<i64>;

/// Calls chrono's `DateTime::parse_from_rfc3339` and, on what it reads,
/// `timestamp_millis`: what comes out depends on the text alone.
#[verifier::external_body]
fn parse_rfc3339_millis(text: &str) -> (res: Option<i64>)
    ensures
        res == rfc3339_millis(text@),
{
    chrono::DateTime::parse_from_rfc3339(text).ok().map(|moment| moment.timestamp_millis())
}

/// Calls chrono's `Utc::now` and `timestamp_millis`. Nothing is promised of the
/// clock.
#[verifier::external_body]
fn now_millis() -> i64 {
    chrono::Utc::now().timestamp_millis()
}

/// The milliseconds since 1970 that a value stands for: a number as seconds or
/// as milliseconds, by its size, a string as an RFC 3339 moment.
pub open spec fn millis_of(value: JsonModel) -> Option<int> {
    match value {
        JsonModel::Int(n) => Some(
            if n < SECONDS_LIMIT {
                n * 1000
            } else {
                n as int
            },
        ),
        JsonModel::Text(s) => match rfc3339_millis(s) {
            Some(n) => Some(n as int),
            None => None,
        },
        _ => None,
    }
}

/// Whether the milliseconds that a value stands for can be told in an `i64`.
pub open spec fn millis_fit(value: JsonModel) -> bool {
    value matches JsonModel::Int(n) ==> i64::MIN <= n * 1000 || SECONDS_LIMIT <= n
}

/// The milliseconds since 1970 that `value` stands for.
pub fn value_to_millis(value: &Json) -> (res: Option<i64>)
    requires
        millis_fit(value@),
    ensures
        match res {
            Some(n) => millis_of(value@) == Some(n as int),
            None => millis_of(value@) is None,
        },
        match *value {
            Json::Int(n) => res matches Some(millis) && millis == (if n < 10_000_000_000 {
                1000 * n
            } else {
                n as int
            }),
            Json::Text(text) => res == rfc3339_millis(text@),
            _ => res is None,
        },
{
    match value {
        Json::Int(n) => Some(
            if *n < SECONDS_LIMIT {
                *n * 1000
            } else {
                *n
            },
        ),
        Json::Text(s) => parse_rfc3339_millis(s.as_str()),
        _ => None,
    }
}

/// The content of a message, which stands in it or in its member `message`.
pub open spec fn message_content(message: JsonModel) -> Option<JsonModel> {
    match message.get("content"@) {
        Some(content) => Some(content),
        None => match message.get("message"@) {
            Some(inner) => inner.get("content"@),
            None => None,
        },
    }
}

/// The headline of a block of content; empty where the block holds no text.
pub open spec fn block_headline(block: JsonModel) -> Seq<char> {
    if block.get_text("type"@) == Some("text"@) {
        match block.get_text("text"@) {
            Some(text) => headline_of(text),
            None => Seq::empty(),
        }
    } else {
        Seq::empty()
    }
}

/// The first headline of `blocks` that is not empty.
pub open spec fn blocks_preview(blocks: Seq<JsonModel>) -> Option<Seq<char>>
    decreases blocks.len(),
{
    if blocks.len() == 0 {
        None
    } else if block_headline(blocks.first()).len() > 0 {
        Some(block_headline(blocks.first()))
    } else {
        blocks_preview(blocks.drop_first())
    }
}

/// What the content of a message offers as a preview.
pub open spec fn content_preview(content: JsonModel) -> Option<Seq<char>> {
    match content {
        JsonModel::Text(text) => if headline_of(text).len() > 0 {
            Some(headline_of(text))
        } else {
            None
        },
        JsonModel::Array(blocks) => blocks_preview(blocks),
        _ => None,
    }
}

/// What the first message that offers a preview offers. A message without
/// content ends the search.
pub open spec fn messages_preview(messages: Seq<JsonModel>) -> Option<Seq<char>>
    decreases messages.len(),
{
    if messages.len() == 0 {
        None
    } else {
        match message_content(messages.first()) {
            None => None,
            Some(content) => match content_preview(content) {
                Some(preview) => Some(preview),
                None => messages_preview(messages.drop_first()),
            },
        }
    }
}

/// What the messages of a thread offer as a preview.
pub open spec fn thread_preview(thread: JsonModel) -> Option<Seq<char>> {
    match thread.get("messages"@) {
        Some(JsonModel::Array(messages)) => messages_preview(messages),
        _ => None,
    }
}

fn content_of(message: &Json) -> (res: Option<&Json>)
    ensures
        optional_ref_model(res) == message_content(message@),
{
    match message.get("content") {
        Some(content) => Some(content),
        None => match message.get("message") {
            Some(inner) => inner.get("content"),
            None => None,
        },
    }
}

fn headline_of_block(block: &Json) -> (res: String)
    ensures
        res@ == block_headline(block@),
{
    if let Some(kind) = block.get_text("type") {
        if same_text(kind, "text") {
            if let Some(text) = block.get_text("text") {
                return headline(text);
            }
        }
    }
    String::new()
}

fn preview_of_blocks(blocks: &Vec<Json>, Ghost(models): Ghost<Seq<JsonModel>>) -> (res: Option<
    String,
>)
    requires
        blocks@.len() == models.len(),
        forall|i: int| 0 <= i < blocks@.len() ==> #[trigger] blocks@[i]@ == models[i],
    ensures
        optional_text(res) == blocks_preview(models),
{
    assert(models.skip(0) =~= models);
    let mut i: usize = 0;
    while i < blocks.len()
        invariant
            i <= blocks@.len(),
            blocks@.len() == models.len(),
            forall|k: int| 0 <= k < blocks@.len() ==> #[trigger] blocks@[k]@ == models[k],
            blocks_preview(models) == blocks_preview(models.skip(i as int)),
        decreases blocks@.len() - i,
    {
        assert(models.skip(i as int).first() == models[i as int]);
        assert(models.skip(i as int).drop_first() =~= models.skip(i + 1));
        let line = headline_of_block(&blocks[i]);
        if !line.as_str().is_empty() {
            return Some(line);
        }
        i += 1;
    }
    None
}

fn preview_of_content(content: &Json) -> (res: Option<String>)
    ensures
        optional_text(res) == content_preview(content@),
{
    match content.as_text() {
        Some(text) => {
            let line = headline(text);
            if !line.as_str().is_empty() {
                Some(line)
            } else {
                None
            }
        },
        None => match content.as_array() {
            Some(blocks) => preview_of_blocks(blocks, Ghost(content@.as_array()->0)),
            None => None,
        },
    }
}

/// A preview of the thread: the first line, trimmed, of the first message that
/// says something.
pub fn first_message_preview(thread: &Json) -> (res: Option<String>)
    ensures
        optional_text(res) == thread_preview(thread@),
{
    let found = match thread.get("messages") {
        Some(value) => value.as_array(),
        None => None,
    };
    let messages = match found {
        Some(messages) => messages,
        None => return None,
    };
    let ghost models = thread@.get("messages"@)->0.as_array()->0;
    assert(models.skip(0) =~= models);
    let mut i: usize = 0;
    while i < messages.len()
        invariant
            i <= messages@.len(),
            messages@.len() == models.len(),
            forall|k: int| 0 <= k < messages@.len() ==> #[trigger] messages@[k]@ == models[k],
            messages_preview(models) == messages_preview(models.skip(i as int)),
            thread_preview(thread@) == messages_preview(models),
        decreases messages@.len() - i,
    {
        assert(models.skip(i as int).first() == models[i as int]);
        assert(models.skip(i as int).drop_first() =~= models.skip(i + 1));
        match content_of(&messages[i]) {
            None => return None,
            Some(content) => {
                let preview = preview_of_content(content);
                if preview.is_some() {
                    return preview;
                }
            },
        }
        i += 1;
    }
    None
}

/// The value that tells when a thread was created.
pub open spec fn created_value(thread: JsonModel) -> Option<JsonModel> {
    thread.get_either("created"@, "createdAt"@)
}

/// The value that tells when a thread was last changed.
pub open spec fn updated_value(thread: JsonModel) -> Option<JsonModel> {
    thread.get_either("updatedAt"@, "updated"@)
}

/// The milliseconds that an optional value stands for, or else `fallback`.
pub open spec fn millis_or(value: Option<JsonModel>, fallback: int) -> int {
    match value {
        Some(v) => match millis_of(v) {
            Some(n) => n,
            None => fallback,
        },
        None => fallback,
    }
}

/// Whether both times of a thread can be told in an `i64`.
pub open spec fn times_fit(thread: JsonModel) -> bool {
    &&& created_value(thread) matches Some(v) ==> millis_fit(v)
    &&& updated_value(thread) matches Some(v) ==> millis_fit(v)
}

/// The title of a thread, if it has one that is not blank.
pub open spec fn title_of(thread: JsonModel) -> Option<Seq<char>> {
    match thread.get_text("title"@) {
        Some(title) => if is_blank(title) {
            None
        } else {
            Some(title)
        },
        None => None,
    }
}

/// Whether a thread becomes a row of the index: its times can be told, and it has
/// an id or else stands in a file of the name `file_name` that lends it one.
pub open spec fn is_indexable(thread: JsonModel, file_name: Seq<u8>) -> bool {
    times_fit(thread) && (thread.get_text("id"@) is Some || names_a_file(file_name))
}

/// The row of the index that a thread becomes, read from the file at `path` at the
/// time `now`.
pub open spec fn entry_of(thread: JsonModel, path: FilePathModel, now: i64) -> EntryModel {
    let id = match thread.get_text("id"@) {
        Some(id) => id,
        None => lossy_utf8(stem_of(path.name)),
    };
    let created_at = millis_or(created_value(thread), now as int);
    EntryModel {
        thread_id: id,
        cwd: match thread.get_either("cwd"@, "workingDirectory"@) {
            Some(JsonModel::Text(cwd)) => cwd,
            _ => Seq::empty(),
        },
        name: title_of(thread),
        preview: match thread_preview(thread) {
            Some(preview) => preview,
            None => match title_of(thread) {
                Some(title) => title,
                None => "(no messages)"@,
            },
        },
        created_at,
        updated_at: millis_or(updated_value(thread), created_at),
        archived: false,
        forked_from_id: None,
        model_provider: "amp"@,
        source: ThreadSourceKind::AppServer,
        metadata: SessionRefModel {
            amp_thread_id: Some(id),
            amp_thread_path: Some(path.whole()),
            model: None,
            reasoning_effort: None,
        },
    }
}

fn time_or(value: Option<&Json>, fallback: i64) -> (res: i64)
    requires
        value matches Some(v) ==> millis_fit(v@),
    ensures
        res == millis_or(optional_ref_model(value), fallback as int),
{
    match value {
        Some(v) => match value_to_millis(v) {
            Some(n) => n,
            None => fallback,
        },
        None => fallback,
    }
}

/// The row of the index that a thread becomes, read from the file at `path` at the
/// time `now`.
pub fn entry_from_value(thread: &Json, path: &FilePath, now: i64) -> (res: IndexEntry)
    requires
        is_indexable(thread@, path@.name),
    ensures
        res@ == entry_of(thread@, path@, now),
        thread@.get_text("id"@) matches Some(id) ==> res.thread_id@ == id,
        thread@.get_text("id"@) is None ==> res.thread_id@ == lossy_utf8(stem_of(path.name@)),
        res.created_at == millis_or(created_value(thread@), now as int),
        res.updated_at == millis_or(updated_value(thread@), res.created_at as int),
        optional_text(res.name) == title_of(thread@),
        thread_preview(thread@) matches Some(preview) ==> res.preview@ == preview,
        thread_preview(thread@) is None ==> match res.name {
            Some(name) => res.preview@ == name@,
            None => res.preview@ == "(no messages)"@,
        },
        thread@.get("cwd"@) matches Some(JsonModel::Text(cwd)) ==> res.cwd@ == cwd,
        !res.archived && res.forked_from_id is None,
        res.model_provider@ == "amp"@,
        res.source == ThreadSourceKind::AppServer,
        optional_text(res.metadata.amp_thread_id) == Some(res.thread_id@),
        res.metadata.amp_thread_path matches Some(whole) && whole.bytes@ == path.dir@ + path.name@,
        res.metadata.model is None && res.metadata.reasoning_effort is None,
{
    let id = match thread.get_text("id") {
        Some(id) => id.to_owned(),
        None => stem_text(path.name.as_slice()),
    };
    let created_at = time_or(thread.get_either("created", "createdAt"), now);
    let updated_at = time_or(thread.get_either("updatedAt", "updated"), created_at);
    let name = match thread.get_text("title") {
        Some(title) => if title.trim().is_empty() {
            None
        } else {
            Some(title.to_owned())
        },
        None => None,
    };
    let preview = match first_message_preview(thread) {
        Some(preview) => preview,
        None => match &name {
            Some(title) => title.clone(),
            None => "(no messages)".to_owned(),
        },
    };
    let found_cwd = match thread.get_either("cwd", "workingDirectory") {
        Some(value) => value.as_text(),
        None => None,
    };
    let cwd = match found_cwd {
        Some(text) => text.to_owned(),
        None => String::new(),
    };
    IndexEntry {
        thread_id: id.clone(),
        cwd,
        name,
        preview,
        created_at,
        updated_at,
        archived: false,
        forked_from_id: None,
        model_provider: "amp".to_owned(),
        source: ThreadSourceKind::AppServer,
        metadata: AmpSessionRef {
            amp_thread_id: Some(id),
            amp_thread_path: Some(path.whole()),
            model: None,
            reasoning_effort: None,
        },
    }
}

/// Reads the text of a thread file into a row of the index. There is no row for a
/// text that is no JSON document, for a thread that tells a time too far back to
/// be told in milliseconds, and for one that neither has an id nor is lent one.
pub fn entry_from_thread_file(path: &FilePath, raw: &str) -> (res: Option<IndexEntry>)
    ensures
        match parsed_json(raw@) {
            Ok(thread) if is_indexable(thread, path@.name) => {
                &&& res matches Some(entry)
                &&& exists|now: i64| entry@ == #[trigger] entry_of(thread, path@, now)
            },
            _ => res is None,
        },
{
    let thread = match parse_json(raw) {
        Ok(thread) => thread,
        Err(_) => return None,
    };
    let timely = fits(thread.get_either("created", "createdAt")) && fits(
        thread.get_either("updatedAt", "updated"),
    );
    let named = thread.get_text("id").is_some() || is_file_name(path.name.as_slice());
    if timely && named {
        Some(entry_from_value(&thread, path, now_millis()))
    } else {
        None
    }
}

/// Whether the milliseconds that a value stands for, if there is one, fit.
fn fits(value: Option<&Json>) -> (res: bool)
    ensures
        res == (value matches Some(v) ==> millis_fit(v@)),
{
    match value {
        Some(Json::Int(n)) => -9_223_372_036_854_775 <= *n,
        _ => true,
    }
}

/// A file in the directory of threads. `raw` is its text, where it could be read.
pub struct ThreadFile {
    pub path: FilePath,
    pub raw: Option<String>,
}

/// What a `ThreadFile` says.
pub struct ThreadFileModel {
    pub path: FilePathModel,
    pub raw: Option<Seq<char>>,
}

impl View for ThreadFile {
    type V = ThreadFileModel;

    open spec fn view(&self) -> ThreadFileModel {
        ThreadFileModel { path: self.path@, raw: optional_text(self.raw) }
    }
}

impl ThreadFileModel {
    /// The thread that the file holds: its name ends in `.json`, it could be
    /// read, its text is a JSON document, and the times of this can be told.
    pub open spec fn thread(self) -> Option<JsonModel> {
        if is_thread_file_name(self.path.name) {
            match self.raw {
                Some(raw) => match parsed_json(raw) {
                    Ok(thread) => if times_fit(thread) {
                        Some(thread)
                    } else {
                        None
                    },
                    Err(_) => None,
                },
                None => None,
            }
        } else {
            None
        }
    }
}

/// What the files of a directory say.
pub open spec fn file_models(files: Seq<ThreadFile>) -> Seq<ThreadFileModel> {
    files.map_values(|file: ThreadFile| file@)
}

/// What rows of the index say.
pub open spec fn row_models(rows: Seq<IndexEntry>) -> Seq<EntryModel> {
    rows.map_values(|row: IndexEntry| row@)
}

/// The rows that `files` become, in the order of the files, where the file at
/// `i` was read at `nows[i]`.
pub open spec fn scanned_rows(files: Seq<ThreadFileModel>, nows: Seq<i64>) -> Seq<EntryModel>
    decreases files.len(),
{
    if files.len() == 0 {
        Seq::empty()
    } else {
        let before = scanned_rows(files.drop_last(), nows);
        let file = files.last();
        match file.thread() {
            Some(thread) => before.push(entry_of(thread, file.path, nows[files.len() - 1])),
            None => before,
        }
    }
}

/// The rows do not depend on times beyond the number of files.
proof fn later_times_do_not_matter(files: Seq<ThreadFileModel>, nows: Seq<i64>, now: i64)
    requires
        files.len() <= nows.len(),
    ensures
        scanned_rows(files, nows.push(now)) == scanned_rows(files, nows),
    decreases files.len(),
{
    if files.len() > 0 {
        later_times_do_not_matter(files.drop_last(), nows, now);
    }
}

/// Reads the files of a directory into rows of the index, in their order. What
/// holds no thread is passed over.
pub fn scan_thread_dir(files: &Vec<ThreadFile>) -> (res: Vec<IndexEntry>)
    ensures
        exists|nows: Seq<i64>|
            nows.len() == files@.len() && row_models(res@) == #[trigger] scanned_rows(
                file_models(files@),
                nows,
            ),
{
    let mut rows: Vec<IndexEntry> = Vec::new();
    let ghost models = file_models(files@);
    let ghost mut nows: Seq<i64> = Seq::empty();
    let mut i: usize = 0;
    assert(row_models(rows@) =~= scanned_rows(models.take(0), nows));
    while i < files.len()
        invariant
            i <= files@.len(),
            models == file_models(files@),
            nows.len() == i,
            row_models(rows@) == scanned_rows(models.take(i as int), nows),
        decreases files@.len() - i,
    {
        let file = &files[i];
        let ghost before = rows@;
        let ghost mut now: i64 = 0;
        proof {
            assert(models.take(i + 1).drop_last() =~= models.take(i as int));
            assert(models.take(i + 1).last() == file@);
        }
        if is_thread_file(file.path.name.as_slice()) {
            proof {
                thread_files_have_names(file.path.name@);
            }
            if let Some(raw) = &file.raw {
                if let Some(row) = entry_from_thread_file(&file.path, raw.as_str()) {
                    proof {
                        let thread = file@.thread()->0;
                        now = choose|now: i64|
                            row@ == #[trigger] entry_of(thread, file.path@, now);
                    }
                    rows.push(row);
                    assert(row_models(rows@) =~= row_models(before).push(row@));
                }
            }
        }
        proof {
            later_times_do_not_matter(models.take(i as int), nows, now);
            nows = nows.push(now);
        }
        i += 1;
    }
    assert(models.take(files@.len() as int) =~= models);
    rows
}

/// Every row of a scan comes from one of the files, and that file holds a thread.
pub proof fn every_row_comes_from_a_thread_file(
    files: Seq<ThreadFileModel>,
    nows: Seq<i64>,
    row: int,
)
    requires
        0 <= row < scanned_rows(files, nows).len(),
    ensures
        exists|i: int|
            0 <= i < files.len() && is_thread_file_name(files[i].path.name) && (
            #[trigger] files[i].thread() matches Some(thread) && scanned_rows(files, nows)[row]
                == entry_of(thread, files[i].path, nows[i])),
    decreases files.len(),
{
    let before = scanned_rows(files.drop_last(), nows);
    if row < before.len() {
        let fewer = files.drop_last();
        every_row_comes_from_a_thread_file(fewer, nows, row);
        let i = choose|i: int|
            0 <= i < fewer.len() && is_thread_file_name(fewer[i].path.name) && (
            #[trigger] fewer[i].thread() matches Some(thread) && before[row] == entry_of(
                thread,
                fewer[i].path,
                nows[i],
            ));
        assert(files[i] == fewer[i]);
        assert(files[i].thread() is Some);
    } else {
        assert(files[files.len() - 1].thread() is Some);
    }
}

/// Every file that holds a thread has its row, whatever stands in the others: one
/// file that cannot be read hides no other.
pub proof fn every_thread_file_has_its_row(
    files: Seq<ThreadFileModel>,
    nows: Seq<i64>,
    i: int,
)
    requires
        0 <= i < files.len(),
        files[i].thread() is Some,
    ensures
        scanned_rows(files, nows).contains(
            entry_of(files[i].thread()->0, files[i].path, nows[i]),
        ),
    decreases files.len(),
{
    let rows = scanned_rows(files, nows);
    let row = entry_of(files[i].thread()->0, files[i].path, nows[i]);
    let before = scanned_rows(files.drop_last(), nows);
    if i < files.len() - 1 {
        assert(files.drop_last()[i] == files[i]);
        every_thread_file_has_its_row(files.drop_last(), nows, i);
        let k = choose|k: int| 0 <= k < before.len() && before[k] == row;
        assert(rows[k] == row);
    } else {
        assert(rows[rows.len() - 1] == row);
    }
}

/// A scan gives at most one row for each file.
pub proof fn at_most_one_row_for_each_file(files: Seq<ThreadFileModel>, nows: Seq<i64>)
    ensures
        scanned_rows(files, nows).len() <= files.len(),
    decreases files.len(),
{
    if files.len() > 0 {
        at_most_one_row_for_each_file(files.drop_last(), nows);
    }
}

proof fn blocks_preview_is_a_headline(blocks: Seq<JsonModel>)
    ensures
        blocks_preview(blocks) matches Some(preview) ==> preview.len() > 0 && !preview.contains(
            '\n',
        ) && trimmed(preview) == preview,
    decreases blocks.len(),
{
    if blocks.len() > 0 {
        if let Some(text) = blocks.first().get_text("text"@) {
            headline_is_one_tight_line(text);
            trimmed_text_is_tight(line_one(text));
        }
        blocks_preview_is_a_headline(blocks.drop_first());
    }
}

proof fn messages_preview_is_a_headline(messages: Seq<JsonModel>)
    ensures
        messages_preview(messages) matches Some(preview) ==> preview.len() > 0
            && !preview.contains('\n') && trimmed(preview) == preview,
    decreases messages.len(),
{
    if messages.len() > 0 {
        if let Some(content) = message_content(messages.first()) {
            match content {
                JsonModel::Text(text) => {
                    headline_is_one_tight_line(text);
                    trimmed_text_is_tight(line_one(text));
                },
                JsonModel::Array(blocks) => blocks_preview_is_a_headline(blocks),
                _ => {},
            }
        }
        messages_preview_is_a_headline(messages.drop_first());
    }
}

/// A preview that messages offer is one line, is trimmed and is not empty.
pub proof fn message_previews_are_single_lines(thread: JsonModel)
    ensures
        thread_preview(thread) matches Some(preview) ==> preview.len() > 0 && !preview.contains(
            '\n',
        ) && trimmed(preview) == preview,
{
    if let Some(JsonModel::Array(messages)) = thread.get("messages"@) {
        messages_preview_is_a_headline(messages);
    }
}

/// Every row of a scan has something to show: a preview that is not empty and,
/// where it has a name, a name that is not blank.
pub proof fn rows_have_something_to_show(
    thread: JsonModel,
    path: FilePathModel,
    now: i64,
)
    ensures
        entry_of(thread, path, now).preview.len() > 0,
        entry_of(thread, path, now).name matches Some(name) ==> !is_blank(name),
{
    reveal_strlit("(no messages)");
    message_previews_are_single_lines(thread);
    if let Some(title) = thread.get_text("title"@) {
        if !is_blank(title) {
            text_that_is_not_blank_is_not_empty(title);
        }
    }
}

/// A thread that a scan found is its own session, lies at the file's path, is
/// not loaded and comes from the app server of amp.
pub proof fn scanned_threads_are_their_own_sessions(
    thread: JsonModel,
    path: FilePathModel,
    now: i64,
    git_info: Option<GitInfo>,
)
    ensures
        ({
            let seen = thread_of(entry_of(thread, path, now), git_info);
            &&& seen.session_id == seen.id
            &&& seen.path == Some(lossy_utf8(path.whole()))
            &&& seen.status == ThreadStatus::NotLoaded
            &&& seen.turns.len() == 0
            &&& seen.source == SessionSource::AppServer
            &&& seen.model_provider == "amp"@
        }),
{
}

/// Reading a time that was already turned into milliseconds changes it no
/// more, from the tenth million second after the start of 1970 on.
pub proof fn milliseconds_stay_milliseconds(n: i64, millis: i64)
    requires
        n >= 10_000_000,
        millis_of(JsonModel::Int(n)) == Some(millis as int),
    ensures
        millis_of(JsonModel::Int(millis)) == Some(millis as int),
{
}

/// A whole number below ten thousand million tells seconds, any other
/// milliseconds; a string tells the moment that it is read as, and nothing else
/// tells a time.
pub proof fn times_are_told_in_seconds_milliseconds_or_moments(
    n: i64,
    text: Seq<char>,
    other: JsonModel,
)
    ensures
        n < 10_000_000_000 ==> millis_of(JsonModel::Int(n)) == Some(1000 * n),
        n >= 10_000_000_000 ==> millis_of(JsonModel::Int(n)) == Some(n as int),
        match rfc3339_millis(text) {
            Some(millis) => millis_of(JsonModel::Text(text)) == Some(millis as int),
            None => millis_of(JsonModel::Text(text)) is None,
        },
        !(other is Int) && !(other is Text) ==> millis_of(other) is None,
{
}

/// Whole seconds and whole milliseconds each keep their order and their distance.
pub proof fn later_times_are_told_later(n: i64, m: i64)
    requires
        n < m,
    ensures
        m < 10_000_000_000 ==> millis_of(JsonModel::Int(m))->0 - millis_of(JsonModel::Int(n))->0
            == 1000 * (m - n),
        n >= 10_000_000_000 ==> millis_of(JsonModel::Int(m))->0 - millis_of(JsonModel::Int(n))->0
            == m - n,
{
}

/// The content of a message is its own where it has one and else that of the
/// message within it.
pub proof fn content_stands_in_the_message_or_within(
    message: JsonModel,
    inner: JsonModel,
    content: JsonModel,
)
    ensures
        message.get("content"@) == Some(content) ==> message_content(message) == Some(content),
        message.get("content"@) is None && message.get("message"@) == Some(inner)
            ==> message_content(message) == inner.get("content"@),
        message.get("content"@) is None && message.get("message"@) is None ==> message_content(
            message,
        ) is None,
{
}

/// Content that is a string offers its headline, unless that is empty; content
/// that is neither a string nor an array offers nothing.
pub proof fn strings_offer_their_headlines(text: Seq<char>, other: JsonModel)
    ensures
        headline_of(text).len() > 0 ==> content_preview(JsonModel::Text(text)) == Some(
            headline_of(text),
        ),
        headline_of(text).len() == 0 ==> content_preview(JsonModel::Text(text)) is None,
        !(other is Text) && !(other is Array) ==> content_preview(other) is None,
{
}

/// Whether a block of content is of text and says something.
pub open spec fn says_something(block: JsonModel) -> bool {
    &&& block.get("type"@) == Some(JsonModel::Text("text"@))
    &&& block.get("text"@) matches Some(JsonModel::Text(text)) && headline_of(text).len() > 0
}

/// Content that is an array offers the headline of the first block that says
/// something, whatever stands in the blocks behind it.
pub proof fn the_first_block_that_says_something_is_offered(blocks: Seq<JsonModel>, i: int)
    requires
        0 <= i < blocks.len(),
        says_something(blocks[i]),
        forall|k: int| 0 <= k < i ==> !says_something(#[trigger] blocks[k]),
    ensures
        content_preview(JsonModel::Array(blocks)) == Some(
            headline_of(blocks[i].get("text"@)->0->Text_0),
        ),
    decreases i,
{
    if i > 0 {
        assert(!says_something(blocks[0]));
        let behind = blocks.drop_first();
        assert(behind[i - 1] == blocks[i]);
        assert forall|k: int| 0 <= k < i - 1 implies !says_something(#[trigger] behind[k]) by {
            assert(behind[k] == blocks[k + 1]);
        }
        the_first_block_that_says_something_is_offered(behind, i - 1);
    }
}

/// Blocks of which none says something offer nothing.
pub proof fn blocks_that_say_nothing_offer_nothing(blocks: Seq<JsonModel>)
    requires
        forall|k: int| 0 <= k < blocks.len() ==> !says_something(#[trigger] blocks[k]),
    ensures
        content_preview(JsonModel::Array(blocks)) is None,
    decreases blocks.len(),
{
    if blocks.len() > 0 {
        assert(!says_something(blocks[0]));
        let behind = blocks.drop_first();
        assert forall|k: int| 0 <= k < behind.len() implies !says_something(
            #[trigger] behind[k],
        ) by {
            assert(behind[k] == blocks[k + 1]);
        }
        blocks_that_say_nothing_offer_nothing(behind);
    }
}

/// Whether a message has content that offers nothing.
pub open spec fn is_silent(message: JsonModel) -> bool {
    message_content(message) matches Some(content) && content_preview(content) is None
}

proof fn silent_messages_are_passed_over(messages: Seq<JsonModel>, i: int)
    requires
        0 <= i <= messages.len(),
        forall|k: int| 0 <= k < i ==> is_silent(#[trigger] messages[k]),
    ensures
        messages_preview(messages) == messages_preview(messages.skip(i)),
    decreases i,
{
    if i == 0 {
        assert(messages.skip(0) =~= messages);
    } else {
        assert(is_silent(messages[0]));
        let behind = messages.drop_first();
        assert forall|k: int| 0 <= k < i - 1 implies is_silent(#[trigger] behind[k]) by {
            assert(behind[k] == messages[k + 1]);
        }
        silent_messages_are_passed_over(behind, i - 1);
        assert(behind.skip(i - 1) =~= messages.skip(i));
    }
}

/// The preview of a thread is what the first message that offers something
/// offers, whatever stands in the messages behind it.
pub proof fn the_first_message_that_says_something_is_shown(
    thread: JsonModel,
    messages: Seq<JsonModel>,
    i: int,
    preview: Seq<char>,
)
    requires
        thread.get("messages"@) == Some(JsonModel::Array(messages)),
        0 <= i < messages.len(),
        forall|k: int| 0 <= k < i ==> is_silent(#[trigger] messages[k]),
        message_content(messages[i]) matches Some(content) && content_preview(content) == Some(
            preview,
        ),
    ensures
        thread_preview(thread) == Some(preview),
{
    silent_messages_are_passed_over(messages, i);
    assert(messages.skip(i).first() == messages[i]);
}

/// A thread whose first message is a string is shown by what stands before the
/// first line feed of it, trimmed, unless that is nothing.
pub proof fn a_string_is_shown_by_its_first_line(
    thread: JsonModel,
    messages: Seq<JsonModel>,
    line: Seq<char>,
    rest: Seq<char>,
)
    requires
        thread.get("messages"@) == Some(JsonModel::Array(messages)),
        messages.len() > 0,
        !line.contains('\n'),
        trimmed(line).len() > 0,
        messages[0].get("content"@) == Some(JsonModel::Text(line)) || messages[0].get("content"@)
            == Some(JsonModel::Text(line.push('\n') + rest)),
    ensures
        thread_preview(thread) == Some(trimmed(line)),
{
    the_headline_stands_before_the_first_line_feed(line, rest);
    the_first_message_that_says_something_is_shown(thread, messages, 0, trimmed(line));
}

/// A thread has no preview where it has no array of messages, where all of its
/// messages are silent, and where a message without content comes before any that
/// says something.
pub proof fn threads_without_a_message_have_no_preview(
    thread: JsonModel,
    messages: Seq<JsonModel>,
    i: int,
)
    requires
        0 <= i <= messages.len(),
        forall|k: int| 0 <= k < i ==> is_silent(#[trigger] messages[k]),
        i < messages.len() ==> message_content(messages[i]) is None,
    ensures
        thread.get("messages"@) == Some(JsonModel::Array(messages)) ==> thread_preview(
            thread,
        ) is None,
        !(thread.get("messages"@) matches Some(JsonModel::Array(_))) ==> thread_preview(
            thread,
        ) is None,
{
    silent_messages_are_passed_over(messages, i);
    if i < messages.len() {
        assert(messages.skip(i).first() == messages[i]);
    }
}

/// A row has the id that its thread tells or else the stem of the file's name,
/// lies at the whole path of the file, and is amp's own.
pub proof fn rows_are_known_by_their_thread_or_file(
    thread: JsonModel,
    path: FilePathModel,
    now: i64,
    id: Seq<char>,
)
    ensures
        ({
            let row = entry_of(thread, path, now);
            &&& thread.get("id"@) == Some(JsonModel::Text(id)) ==> row.thread_id == id
            &&& !(thread.get("id"@) matches Some(JsonModel::Text(_))) ==> row.thread_id
                == lossy_utf8(stem_of(path.name))
            &&& row.metadata.amp_thread_id == Some(row.thread_id)
            &&& row.metadata.amp_thread_path == Some(path.dir + path.name)
            &&& row.metadata.model is None && row.metadata.reasoning_effort is None
            &&& !row.archived && row.forked_from_id is None
            &&& row.model_provider == "amp"@
            &&& row.source == ThreadSourceKind::AppServer
        }),
{
}

/// A row was created when its thread says, by `created` before `createdAt`, and
/// otherwise when it is read; it was last changed when its thread says, by
/// `updatedAt` before `updated`, and otherwise when it was created.
pub proof fn rows_are_dated_by_their_threads(
    thread: JsonModel,
    path: FilePathModel,
    now: i64,
    told: JsonModel,
)
    ensures
        ({
            let row = entry_of(thread, path, now);
            let time = match millis_of(told) {
                Some(millis) => millis,
                None => now as int,
            };
            let change = match millis_of(told) {
                Some(millis) => millis,
                None => row.created_at,
            };
            &&& thread.get("created"@) == Some(told) ==> row.created_at == time
            &&& thread.get("created"@) is None && thread.get("createdAt"@) == Some(told)
                ==> row.created_at == time
            &&& thread.get("created"@) is None && thread.get("createdAt"@) is None
                ==> row.created_at == now
            &&& thread.get("updatedAt"@) == Some(told) ==> row.updated_at == change
            &&& thread.get("updatedAt"@) is None && thread.get("updated"@) == Some(told)
                ==> row.updated_at == change
            &&& thread.get("updatedAt"@) is None && thread.get("updated"@) is None
                ==> row.updated_at == row.created_at
        }),
{
}

/// When a file is read does not matter to the row of a thread that says when it
/// was created.
pub proof fn dated_rows_do_not_depend_on_the_clock(
    thread: JsonModel,
    path: FilePathModel,
    now: i64,
    later: i64,
)
    requires
        thread.get("created"@) matches Some(told) && millis_of(told) is Some,
    ensures
        entry_of(thread, path, now) == entry_of(thread, path, later),
{
}

/// A row has the title of its thread for a name, unless that is blank, and is
/// previewed by the messages, else by the name, else by a remark.
pub proof fn rows_are_named_and_previewed_by_their_threads(
    thread: JsonModel,
    path: FilePathModel,
    now: i64,
    title: Seq<char>,
    preview: Seq<char>,
)
    ensures
        ({
            let row = entry_of(thread, path, now);
            &&& thread.get("title"@) == Some(JsonModel::Text(title)) && trimmed(title).len() > 0
                ==> row.name == Some(title)
            &&& thread.get("title"@) == Some(JsonModel::Text(title)) && trimmed(title).len() == 0
                ==> row.name is None
            &&& !(thread.get("title"@) matches Some(JsonModel::Text(_))) ==> row.name is None
            &&& thread_preview(thread) == Some(preview) ==> row.preview == preview
            &&& thread_preview(thread) is None && row.name == Some(title) ==> row.preview == title
            &&& thread_preview(thread) is None && row.name is None ==> row.preview
                == "(no messages)"@
        }),
{
}

/// A row has the working directory that its thread tells, by `cwd` before
/// `workingDirectory`, and otherwise an empty one.
pub proof fn rows_have_the_directory_of_their_thread(
    thread: JsonModel,
    path: FilePathModel,
    now: i64,
    cwd: Seq<char>,
)
    ensures
        ({
            let row = entry_of(thread, path, now);
            let told = JsonModel::Text(cwd);
            &&& thread.get("cwd"@) == Some(told) ==> row.cwd == cwd
            &&& thread.get("cwd"@) is None && thread.get("workingDirectory"@) == Some(told)
                ==> row.cwd == cwd
            &&& (thread.get("cwd"@) matches Some(other) && !(other is Text)) ==> row.cwd.len() == 0
            &&& thread.get("cwd"@) is None && thread.get("workingDirectory"@) is None
                ==> row.cwd.len() == 0
        }),
{
}

/// A file holds the thread that its text is read as, where its name ends in
/// `.json` and the times of the thread can be told; any other file holds none.
pub proof fn files_hold_what_their_text_is_read_as(
    file: ThreadFileModel,
    raw: Seq<char>,
    thread: JsonModel,
)
    ensures
        file.raw == Some(raw) && parsed_json(raw) == Ok::<JsonModel, Seq<char>>(thread)
            && times_fit(thread) && is_thread_file_name(file.path.name) ==> file.thread() == Some(
            thread,
        ),
        file.thread() == Some(thread) ==> is_thread_file_name(file.path.name) && times_fit(thread)
            && (file.raw matches Some(text) && parsed_json(text) == Ok::<JsonModel, Seq<char>>(
            thread,
        )),
{
}

/// The times of a thread can be told unless one of them is a whole number of
/// seconds too far back.
pub proof fn times_fit_unless_they_lie_too_far_back(value: JsonModel, n: i64)
    ensures
        !(value is Int) ==> millis_fit(value),
        millis_fit(JsonModel::Int(n)) <==> n >= -9_223_372_036_854_775,
{
}

/// A scan of files and then of more files gives the rows of the ones and then
/// those of the others, and a scan of one file gives its row, if it holds a thread.
pub proof fn scans_go_file_by_file(
    files: Seq<ThreadFileModel>,
    more: Seq<ThreadFileModel>,
    nows: Seq<i64>,
    file: ThreadFileModel,
    now: i64,
)
    requires
        nows.len() == files.len() + more.len(),
    ensures
        scanned_rows(files + more, nows) == scanned_rows(files, nows.take(files.len() as int))
            + scanned_rows(more, nows.skip(files.len() as int)),
        match file.thread() {
            Some(thread) => scanned_rows(seq![file], seq![now]) == seq![
                entry_of(thread, file.path, now),
            ],
            None => scanned_rows(seq![file], seq![now]).len() == 0,
        },
    decreases more.len(),
{
    assert(seq![file].drop_last() =~= Seq::<ThreadFileModel>::empty());
    assert(scanned_rows(Seq::<ThreadFileModel>::empty(), seq![now]) == Seq::<EntryModel>::empty());
    if let Some(thread) = file.thread() {
        assert(scanned_rows(seq![file], seq![now]) =~= seq![entry_of(thread, file.path, now)]);
    }
    let n = files.len() as int;
    let first = nows.take(n);
    let second = nows.skip(n);
    if more.len() == 0 {
        assert(files + more =~= files);
        assert(first =~= nows);
        assert(scanned_rows(more, second) =~= Seq::<EntryModel>::empty());
        assert(scanned_rows(files, first) + Seq::<EntryModel>::empty() =~= scanned_rows(
            files,
            first,
        ));
    } else {
        let fewer = more.drop_last();
        let earlier = nows.drop_last();
        scans_go_file_by_file(files, fewer, earlier, file, now);
        assert((files + more).drop_last() =~= files + fewer);
        assert((files + more).last() == more.last());
        assert(earlier.push(nows.last()) =~= nows);
        later_times_do_not_matter(files + fewer, earlier, nows.last());
        assert(earlier.take(n) =~= first);
        assert(earlier.skip(n).push(nows.last()) =~= second);
        later_times_do_not_matter(fewer, earlier.skip(n), nows.last());
        assert(second[more.len() - 1] == nows[(files + more).len() - 1]);
        assert(scanned_rows(files + more, nows) =~= scanned_rows(files, first) + scanned_rows(
            more,
            second,
        ));
    }
}

/// Threads that tell times that can be told become rows wherever the file can lend
/// them an id, and threads that have an id become rows in any file.
pub proof fn threads_are_lent_an_id(thread: JsonModel, file_name: Seq<u8>, id: Seq<char>)
    requires
        times_fit(thread),
    ensures
        is_thread_file_name(file_name) ==> is_indexable(thread, file_name),
        thread.get("id"@) == Some(JsonModel::Text(id)) ==> is_indexable(thread, file_name),
{
    if is_thread_file_name(file_name) {
        thread_files_have_names(file_name);
    }
}

/// A file says where it lies and what stands in it, and what files and rows say
/// stands at the places of the files and rows.
pub proof fn files_and_rows_say_what_they_hold(
    files: Seq<ThreadFile>,
    rows: Seq<IndexEntry>,
    i: int,
)
    ensures
        file_models(files).len() == files.len(),
        0 <= i < files.len() ==> file_models(files)[i].path == files[i].path@
            && file_models(files)[i].raw == optional_text(files[i].raw),
        row_models(rows).len() == rows.len(),
        0 <= i < rows.len() ==> row_models(rows)[i].thread_id == rows[i].thread_id@
            && row_models(rows)[i].created_at == rows[i].created_at
            && row_models(rows)[i].updated_at == rows[i].updated_at
            && row_models(rows)[i].preview == rows[i].preview@ && row_models(rows)[i].cwd
            == rows[i].cwd@,
{
}

/// Whether a value is anything but a number of seconds too far back to be told in
/// milliseconds.
pub open spec fn is_tellable(value: Option<JsonModel>) -> bool {
    value matches Some(JsonModel::Int(n)) ==> n >= -9_223_372_036_854_775
}

/// A thread is passed over for its times only where one of the numbers that tell
/// them lies too far back.
pub proof fn threads_are_passed_over_for_old_numbers_alone(thread: JsonModel)
    requires
        is_tellable(thread.get("created"@)),
        is_tellable(thread.get("createdAt"@)),
        is_tellable(thread.get("updatedAt"@)),
        is_tellable(thread.get("updated"@)),
    ensures
        times_fit(thread),
{
}

} // verus!
