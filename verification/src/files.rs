//! Uploaded files: the file record the API reports, its JSON decoding,
//! the resumable-upload decisions, and the content-addressed cache of
//! uploaded handles.

use vstd::prelude::*;
use vstd::string::StringSliceAdditionalSpecFns;

use crate::content::FileData;
use crate::errors::GemError;
use crate::json::JsonValue;
use crate::json::json_to_string;
use crate::json::lemma_render_members;
use crate::json::parse_json;
use crate::json::spec_json_parse;
use crate::json::spec_obj_text;
use crate::json::spec_render;
use crate::json::spec_render_string;
use crate::text::spec_lex_cmp;
use crate::text::str_eq;
use crate::text::str_lex_cmp;

verus! {

/// An error the API attached to a failed file.
#[derive(Debug, Clone)]
pub struct Status {
    pub code: i32,
    pub message: String,
}

/// The mathematical value of a [`Status`].
#[verifier::ext_equal]
pub ghost struct StatusView {
    pub code: i32,
    pub message: Seq<char>,
}

impl View for Status {
    type V = StatusView;

    open spec fn view(&self) -> StatusView {
        StatusView { code: self.code, message: self.message@ }
    }
}

/// Metadata the API attaches to an uploaded video.
#[derive(Debug, Clone)]
pub struct VideoMetadata {
    pub video_duration: String,
}

impl View for VideoMetadata {
    type V = Seq<char>;

    open spec fn view(&self) -> Seq<char> {
        self.video_duration@
    }
}

/// A file record as the API reports it. The API key is not part of the
/// wire record; it is filled in after decoding.
#[derive(Debug, Clone)]
pub struct File {
    pub name: String,
    pub uri: String,
    pub display_name: String,
    pub mime_type: String,
    pub size_bytes: String,
    pub create_time: String,
    pub update_time: String,
    pub expiration_time: String,
    pub sha256_hash: String,
    pub state: String,
    pub error: Option<Status>,
    pub video_metadata: Option<VideoMetadata>,
    pub api_key: String,
}

/// The mathematical value of a [`File`].
#[verifier::ext_equal]
pub ghost struct FileView {
    pub name: Seq<char>,
    pub uri: Seq<char>,
    pub display_name: Seq<char>,
    pub mime_type: Seq<char>,
    pub size_bytes: Seq<char>,
    pub create_time: Seq<char>,
    pub update_time: Seq<char>,
    pub expiration_time: Seq<char>,
    pub sha256_hash: Seq<char>,
    pub state: Seq<char>,
    pub error: Option<StatusView>,
    pub video_metadata: Option<Seq<char>>,
    pub api_key: Seq<char>,
}

impl View for File {
    type V = FileView;

    open spec fn view(&self) -> FileView {
        FileView {
            name: self.name@,
            uri: self.uri@,
            display_name: self.display_name@,
            mime_type: self.mime_type@,
            size_bytes: self.size_bytes@,
            create_time: self.create_time@,
            update_time: self.update_time@,
            expiration_time: self.expiration_time@,
            sha256_hash: self.sha256_hash@,
            state: self.state@,
            error: match self.error {
                Some(s) => Some(s@),
                None => None,
            },
            video_metadata: match self.video_metadata {
                Some(v) => Some(v@),
                None => None,
            },
            api_key: self.api_key@,
        }
    }
}

/// A required string field of a file record.
pub open spec fn spec_req_string_field(v: JsonValue, key: Seq<char>) -> Option<Seq<char>> {
    match v.spec_get(key) {
        Some(JsonValue::Str(s)) => Some(s@),
        _ => None,
    }
}

/// The attached error out of JSON: a required code in 32-bit range and
/// a required message.
pub open spec fn spec_decode_status(v: JsonValue) -> Option<StatusView> {
    match (v.spec_get("code"@), v.spec_get("message"@)) {
        (Some(JsonValue::Int(n)), Some(JsonValue::Str(m))) => if -0x8000_0000 <= n
            <= 0x7fff_ffff {
            Some(StatusView { code: n as i32, message: m@ })
        } else {
            None
        },
        _ => None,
    }
}

/// A file record out of JSON: ten required strings, an optional error
/// and optional video metadata; the API key starts empty.
pub open spec fn spec_decode_file(v: JsonValue) -> Option<FileView> {
    let error = match v.spec_get("error"@) {
        None => Some(None),
        Some(JsonValue::Null) => Some(None::<StatusView>),
        Some(e) => match spec_decode_status(e) {
            Some(s) => Some(Some(s)),
            None => None,
        },
    };
    let video_metadata = match v.spec_get("videoMetadata"@) {
        None => Some(None),
        Some(JsonValue::Null) => Some(None::<Seq<char>>),
        Some(m) => match spec_req_string_field(m, "videoDuration"@) {
            Some(d) => Some(Some(d)),
            None => None,
        },
    };
    match (
        spec_req_string_field(v, "name"@),
        spec_req_string_field(v, "uri"@),
        spec_req_string_field(v, "displayName"@),
        spec_req_string_field(v, "mimeType"@),
        spec_req_string_field(v, "sizeBytes"@),
        spec_req_string_field(v, "createTime"@),
        spec_req_string_field(v, "updateTime"@),
        spec_req_string_field(v, "expirationTime"@),
        spec_req_string_field(v, "sha256Hash"@),
        spec_req_string_field(v, "state"@),
        error,
        video_metadata,
    ) {
        (Some(name), Some(uri), Some(display_name), Some(mime_type), Some(size_bytes), Some(
            create_time,
        ), Some(update_time), Some(expiration_time), Some(sha256_hash), Some(state), Some(error),
        Some(video_metadata)) => Some(
            FileView {
                name,
                uri,
                display_name,
                mime_type,
                size_bytes,
                create_time,
                update_time,
                expiration_time,
                sha256_hash,
                state,
                error,
                video_metadata,
                api_key: Seq::<char>::empty(),
            },
        ),
        _ => None,
    }
}

/// Reads a required string field of a file record.
fn req_string_field(v: &JsonValue, key: &str) -> (r: Option<String>)
    ensures
        match r {
            Some(s) => spec_req_string_field(*v, key@) == Some(s@),
            None => spec_req_string_field(*v, key@) is None,
        },
{
    match v.get(key) {
        Some(JsonValue::Str(s)) => Some(s.clone()),
        _ => None,
    }
}

/// Decodes the attached error of a failed file.
fn decode_status(v: &JsonValue) -> (r: Option<Status>)
    ensures
        match r {
            Some(s) => spec_decode_status(*v) == Some(s@),
            None => spec_decode_status(*v) is None,
        },
{
    match (v.get("code"), v.get("message")) {
        (Some(JsonValue::Int(n)), Some(JsonValue::Str(m))) => {
            if -0x8000_0000i64 <= *n && *n <= 0x7fff_ffffi64 {
                Some(Status { code: *n as i32, message: m.clone() })
            } else {
                None
            }
        },
        _ => None,
    }
}

/// Decodes a file record.
pub fn decode_file(v: &JsonValue) -> (r: Option<File>)
    ensures
        match r {
            Some(f) => spec_decode_file(*v) == Some(f@),
            None => spec_decode_file(*v) is None,
        },
{
    let error = match v.get("error") {
        None => None,
        Some(JsonValue::Null) => None,
        Some(e) => match decode_status(e) {
            Some(s) => Some(s),
            None => {
                return None;
            },
        },
    };
    let video_metadata = match v.get("videoMetadata") {
        None => None,
        Some(JsonValue::Null) => None,
        Some(m) => match req_string_field(m, "videoDuration") {
            Some(d) => Some(VideoMetadata { video_duration: d }),
            None => {
                return None;
            },
        },
    };
    let name = match req_string_field(v, "name") {
        Some(s) => s,
        None => {
            return None;
        },
    };
    let uri = match req_string_field(v, "uri") {
        Some(s) => s,
        None => {
            return None;
        },
    };
    let display_name = match req_string_field(v, "displayName") {
        Some(s) => s,
        None => {
            return None;
        },
    };
    let mime_type = match req_string_field(v, "mimeType") {
        Some(s) => s,
        None => {
            return None;
        },
    };
    let size_bytes = match req_string_field(v, "sizeBytes") {
        Some(s) => s,
        None => {
            return None;
        },
    };
    let create_time = match req_string_field(v, "createTime") {
        Some(s) => s,
        None => {
            return None;
        },
    };
    let update_time = match req_string_field(v, "updateTime") {
        Some(s) => s,
        None => {
            return None;
        },
    };
    let expiration_time = match req_string_field(v, "expirationTime") {
        Some(s) => s,
        None => {
            return None;
        },
    };
    let sha256_hash = match req_string_field(v, "sha256Hash") {
        Some(s) => s,
        None => {
            return None;
        },
    };
    let state = match req_string_field(v, "state") {
        Some(s) => s,
        None => {
            return None;
        },
    };
    let f = File {
        name,
        uri,
        display_name,
        mime_type,
        size_bytes,
        create_time,
        update_time,
        expiration_time,
        sha256_hash,
        state,
        error,
        video_metadata,
        api_key: String::new(),
    };
    proof {
        assert(spec_decode_file(*v) matches Some(fv) && fv =~~= f@);
    }
    Some(f)
}

/// The body that reserves an upload: the file's display name, and
/// nothing else.
pub open spec fn spec_reserve_body(file_name: Seq<char>) -> Seq<char> {
    spec_obj_text(
        seq![
            ("file"@, spec_obj_text(seq![("display_name"@, spec_render_string(file_name))])),
        ],
    )
}

/// Builds the body that reserves an upload for `file_name`.
pub fn reserve_request_body(file_name: &str) -> (r: String)
    ensures
        r@ == spec_reserve_body(file_name@),
{
    let inner = vec![
        (String::from_str("display_name"), JsonValue::Str(file_name.to_owned())),
    ];
    let ghost inner_kvs = seq![("display_name"@, spec_render_string(file_name@))];
    proof {
        lemma_render_members(inner@, inner_kvs);
    }
    let members = vec![(String::from_str("file"), JsonValue::Obj(inner))];
    let ghost kvs = seq![("file"@, spec_obj_text(inner_kvs))];
    proof {
        lemma_render_members(members@, kvs);
        assert(spec_render(JsonValue::Obj(members)) =~= spec_reserve_body(file_name@));
    }
    let j = JsonValue::Obj(members);
    json_to_string(&j)
}

/// What the upload reservation's answer must hold: a `file` member that
/// is a well-formed file record.
pub open spec fn spec_upload_response_file(v: JsonValue) -> Option<FileView> {
    match v.spec_get("file"@) {
        Some(f) => spec_decode_file(f),
        None => None,
    }
}

/// Reads the uploaded file's record out of the upload response body: a
/// body that is not JSON, has no `file` member, or holds a malformed
/// record is a `FileError`.
pub fn parse_upload_response(body: &str) -> (r: Result<File, GemError>)
    ensures
        match spec_json_parse(body.spec_bytes()) {
            Some(v) => match spec_upload_response_file(v) {
                Some(f) => r matches Ok(file) && file@ == f,
                None => r matches Err(GemError::FileError(_)),
            },
            None => r matches Err(GemError::FileError(_)),
        },
{
    let parsed = match parse_json(body.as_bytes()) {
        Ok(v) => v,
        Err(msg) => {
            return Err(GemError::FileError(msg));
        },
    };
    match parsed.get("file") {
        Some(f) => match decode_file(f) {
            Some(file) => Ok(file),
            None => Err(GemError::FileError(String::from_str("malformed file record"))),
        },
        None => Err(GemError::FileError(String::from_str("file data not found"))),
    }
}

/// Reads a file record out of a status-poll body: a body that is not
/// JSON or not a well-formed record is a `FileError`.
pub fn parse_file_status(body: &str) -> (r: Result<File, GemError>)
    ensures
        match spec_json_parse(body.spec_bytes()) {
            Some(v) => match spec_decode_file(v) {
                Some(f) => r matches Ok(file) && file@ == f,
                None => r matches Err(GemError::FileError(_)),
            },
            None => r matches Err(GemError::FileError(_)),
        },
{
    let parsed = match parse_json(body.as_bytes()) {
        Ok(v) => v,
        Err(msg) => {
            return Err(GemError::FileError(msg));
        },
    };
    match decode_file(&parsed) {
        Some(file) => Ok(file),
        None => Err(GemError::FileError(String::from_str("malformed file record"))),
    }
}

/// What the upload poll does next.
#[derive(Debug)]
pub enum PollAction {
    /// The file is active: the upload is done.
    Done,
    /// The upload failed for the stated reason.
    Fail(String),
    /// The file is still processing: wait and poll again.
    Retry,
}

/// How many polls are made before the upload counts as timed out.
pub const POLL_LIMIT: u32 = 3;

/// Decides one round of the upload poll from the reported state:
/// `ACTIVE` is done; `FAILED` fails with the attached message, or a
/// fixed one where none came; any other state than `PROCESSING` fails
/// as unknown; `PROCESSING` past the poll limit fails as a timeout,
/// within it the poll goes on.
pub fn poll_decision(file_state: &File, attempts: u32) -> (r: PollAction)
    ensures
        file_state@.state == "ACTIVE"@ ==> r is Done,
        file_state@.state == "FAILED"@ ==> (r matches PollAction::Fail(m) && m@ == match file_state@.error {
            Some(s) => s.message,
            None => "File processing failed"@,
        }),
        file_state@.state != "ACTIVE"@ && file_state@.state != "FAILED"@ && file_state@.state
            != "PROCESSING"@ ==> (r matches PollAction::Fail(m) && m@
            == "File processing unknown state"@),
        file_state@.state == "PROCESSING"@ && attempts >= POLL_LIMIT ==> (r matches
        PollAction::Fail(m) && m@ == "File processing timeout"@),
        file_state@.state == "PROCESSING"@ && attempts < POLL_LIMIT ==> r is Retry,
{
    proof {
        reveal_strlit("ACTIVE");
        reveal_strlit("FAILED");
        reveal_strlit("PROCESSING");
        assert("FAILED"@[0] != "ACTIVE"@[0]);
        assert("PROCESSING"@.len() != "ACTIVE"@.len());
        assert("PROCESSING"@.len() != "FAILED"@.len());
    }
    if str_eq(file_state.state.as_str(), "ACTIVE") {
        PollAction::Done
    } else if str_eq(file_state.state.as_str(), "FAILED") {
        match &file_state.error {
            Some(status) => PollAction::Fail(status.message.clone()),
            None => PollAction::Fail(String::from_str("File processing failed")),
        }
    } else if !str_eq(file_state.state.as_str(), "PROCESSING") {
        PollAction::Fail(String::from_str("File processing unknown state"))
    } else if attempts >= POLL_LIMIT {
        PollAction::Fail(String::from_str("File processing timeout"))
    } else {
        PollAction::Retry
    }
}

/// Checks that a file can be deleted remotely: without an API key the
/// deletion cannot be authorized.
pub fn delete_precheck(file: &File) -> (r: Result<(), GemError>)
    ensures
        file@.api_key.len() == 0 <==> (r matches Err(GemError::FileError(m)) && m@
            == "API key not found"@),
        file@.api_key.len() > 0 <==> r is Ok,
{
    if file.api_key.as_str().is_empty() {
        Err(GemError::FileError(String::from_str("API key not found")))
    } else {
        Ok(())
    }
}

/// What one page of the file list holds: the records under `files`, or
/// nothing where the member is absent, and the token of the next page.
pub open spec fn spec_decode_file_page(v: JsonValue) -> Option<
    (Option<Seq<FileView>>, Option<Seq<char>>),
> {
    let token = match v.spec_get("nextPageToken"@) {
        Some(JsonValue::Str(t)) => Some(t@),
        _ => None,
    };
    match v.spec_get("files"@) {
        None => Some((None, token)),
        Some(JsonValue::Arr(items)) => match spec_decode_files(items@) {
            Some(fs) => Some((Some(fs), token)),
            None => None,
        },
        Some(_) => None,
    }
}

/// A list of file records out of JSON.
pub open spec fn spec_decode_files(items: Seq<JsonValue>) -> Option<Seq<FileView>>
    decreases items.len(),
{
    if items.len() == 0 {
        Some(Seq::<FileView>::empty())
    } else {
        match (spec_decode_file(items[0]), spec_decode_files(items.drop_first())) {
            (Some(f), Some(rest)) => Some(seq![f] + rest),
            _ => None,
        }
    }
}

/// Decodes a list of file records.
#[verifier::loop_isolation(false)]
fn decode_files(items: &Vec<JsonValue>) -> (r: Option<Vec<File>>)
    ensures
        match r {
            Some(fs) => spec_decode_files(items@) == Some(Seq::new(fs@.len(), |k: int| fs@[k]@)),
            None => spec_decode_files(items@) is None,
        },
{
    let mut out: Vec<File> = Vec::new();
    let n = items.len();
    proof {
        assert(items@.skip(0) =~= items@);
        assert(Seq::new(0, |k: int| out@[k]@) + Seq::<FileView>::empty() =~= Seq::new(
            0,
            |k: int| out@[k]@,
        ));
    }
    for i in 0..n
        invariant
            out@.len() <= i,
            match spec_decode_files(items@.skip(i as int)) {
                Some(rest) => spec_decode_files(items@) == Some(
                    Seq::new(out@.len(), |k: int| out@[k]@) + rest,
                ),
                None => spec_decode_files(items@) is None,
            },
    {
        proof {
            assert(items@.skip(i as int)[0] == items@[i as int]);
            assert(items@.skip(i as int).drop_first() =~= items@.skip(i + 1));
        }
        let ghost out_before = out@;
        match decode_file(&items[i]) {
            Some(f) => {
                out.push(f);
                proof {
                    let rest_opt = spec_decode_files(items@.skip(i + 1));
                    if rest_opt is Some {
                        assert(Seq::new(out_before.len(), |k: int| out_before[k]@) + (seq![
                            out@.last()@,
                        ] + rest_opt.unwrap()) =~= Seq::new(out@.len(), |k: int| out@[k]@)
                            + rest_opt.unwrap());
                    }
                }
            },
            None => {
                return None;
            },
        }
    }
    proof {
        assert(items@.skip(n as int) =~= Seq::<JsonValue>::empty());
        assert(Seq::new(out@.len(), |k: int| out@[k]@) + Seq::<FileView>::empty() =~= Seq::new(
            out@.len(),
            |k: int| out@[k]@,
        ));
    }
    Some(out)
}

/// Reads one page of the remote file list: the records, where the page
/// holds any, and the token under which the next page is fetched. A
/// body that is not JSON or holds a malformed record is a `FileError`.
pub fn parse_file_list_page(body: &str) -> (r: Result<(Option<Vec<File>>, Option<String>), GemError>)
    ensures
        match spec_json_parse(body.spec_bytes()) {
            Some(v) => match spec_decode_file_page(v) {
                Some((files, token)) => r matches Ok((rf, rt)) && (match rf {
                    Some(fs) => files matches Some(fvs) && fvs == Seq::new(
                        fs@.len(),
                        |k: int| fs@[k]@,
                    ),
                    None => files is None,
                }) && (match rt {
                    Some(t) => token == Some(t@),
                    None => token is None,
                }),
                None => r matches Err(GemError::FileError(_)),
            },
            None => r matches Err(GemError::FileError(_)),
        },
{
    let parsed = match parse_json(body.as_bytes()) {
        Ok(v) => v,
        Err(msg) => {
            return Err(GemError::FileError(msg));
        },
    };
    let token = match parsed.get("nextPageToken") {
        Some(JsonValue::Str(t)) => Some(t.clone()),
        _ => None,
    };
    match parsed.get("files") {
        None => Ok((None, token)),
        Some(JsonValue::Arr(items)) => match decode_files(items) {
            Some(files) => Ok((Some(files), token)),
            None => Err(GemError::FileError(String::from_str("malformed file record"))),
        },
        Some(_) => Err(GemError::FileError(String::from_str("malformed file list"))),
    }
}

/// The hex digest of the bytes, as the cache keys uploads; the result
/// depends on the bytes alone.
pub uninterp spec fn spec_sha256_hex(bytes: Seq<u8>) -> Seq<char>;

/// Relies on sha256::digest: the lower-case hex form of the bytes'
/// digest, 64 characters long.
#[verifier::external_body]
pub fn sha256_hex(bytes: &Vec<u8>) -> (r: String)
    ensures
        r@ == spec_sha256_hex(bytes@),
        r@.len() == 64,
{
    sha256::digest(bytes)
}

/// Relies on chrono's `Utc::now` and `to_rfc3339`: the moment ten
/// minutes from now, written in RFC 3339 form. Nothing is promised of
/// the result: it depends on the clock.
#[verifier::external_body]
pub fn now_plus_ten_minutes_rfc3339() -> String {
    (chrono::Utc::now() + chrono::Duration::minutes(10)).to_rfc3339()
}

/// The key-to-record pairs a cache holds, oldest first.
pub type CacheEntries = Seq<(Seq<char>, FileView)>;

/// A cache is well formed when no two entries share a key.
pub open spec fn spec_cache_wf(entries: CacheEntries) -> bool {
    forall|i: int, j: int| 0 <= i < j < entries.len() ==> entries[i].0 != entries[j].0
}

/// The record under `key`: the first entry whose key matches.
pub open spec fn spec_cache_lookup(entries: CacheEntries, key: Seq<char>) -> Option<FileView>
    decreases entries.len(),
{
    if entries.len() == 0 {
        None
    } else if entries[0].0 == key {
        Some(entries[0].1)
    } else {
        spec_cache_lookup(entries.drop_first(), key)
    }
}

/// The entries with the first match of `key` taken out.
pub open spec fn spec_cache_remove(entries: CacheEntries, key: Seq<char>) -> CacheEntries
    decreases entries.len(),
{
    if entries.len() == 0 {
        entries
    } else if entries[0].0 == key {
        entries.drop_first()
    } else {
        seq![entries[0]] + spec_cache_remove(entries.drop_first(), key)
    }
}

/// Putting a record in: any entry under the key leaves, the new pair
/// goes to the end.
pub open spec fn spec_cache_insert(entries: CacheEntries, key: Seq<char>, f: FileView) -> CacheEntries {
    spec_cache_remove(entries, key).push((key, f))
}

/// A key is absent exactly when no entry carries it.
pub proof fn lemma_cache_lookup_none(entries: CacheEntries, key: Seq<char>)
    ensures
        (spec_cache_lookup(entries, key) is None) <==> (forall|j: int|
            0 <= j < entries.len() ==> (#[trigger] entries[j]).0 != key),
    decreases entries.len(),
{
    if entries.len() > 0 {
        lemma_cache_lookup_none(entries.drop_first(), key);
        assert(forall|j: int| 1 <= j < entries.len() ==> entries.drop_first()[j - 1] == (
        #[trigger] entries[j]));
    }
}

/// Where the first `i` entries miss the key: what the lookup and the
/// removal come to from entry `i` on.
pub proof fn lemma_cache_first_match(entries: CacheEntries, key: Seq<char>, i: int)
    requires
        0 <= i <= entries.len(),
        forall|j: int| 0 <= j < i ==> (#[trigger] entries[j]).0 != key,
        i < entries.len() ==> entries[i].0 == key,
    ensures
        i < entries.len() ==> spec_cache_lookup(entries, key) == Some(entries[i].1),
        i < entries.len() ==> spec_cache_remove(entries, key) =~= entries.subrange(0, i)
            + entries.skip(i + 1),
        i == entries.len() ==> spec_cache_lookup(entries, key) is None,
        i == entries.len() ==> spec_cache_remove(entries, key) =~= entries,
    decreases i,
{
    if i == 0 {
        if entries.len() > 0 && entries[0].0 == key {
            assert(spec_cache_remove(entries, key) =~= entries.subrange(0, 0) + entries.skip(1));
        } else if entries.len() == 0 {
        } else {
            assert(entries[0].0 == key);
        }
    } else {
        let rest = entries.drop_first();
        assert(forall|j: int| 0 <= j < i - 1 ==> (#[trigger] rest[j]) == entries[j + 1]);
        lemma_cache_first_match(rest, key, i - 1);
        assert(entries[0].0 != key);
        if i < entries.len() {
            assert(spec_cache_remove(entries, key) =~= seq![entries[0]] + spec_cache_remove(
                rest,
                key,
            ));
            assert(seq![entries[0]] + (rest.subrange(0, i - 1) + rest.skip(i)) =~= entries.subrange(
                0,
                i,
            ) + entries.skip(i + 1));
        } else {
            assert(spec_cache_remove(entries, key) =~= seq![entries[0]] + spec_cache_remove(
                rest,
                key,
            ));
            assert(seq![entries[0]] + rest =~= entries);
        }
    }
}

/// Removal keeps well-formedness and leaves no entry under the key.
pub proof fn lemma_cache_remove_wf(entries: CacheEntries, key: Seq<char>)
    requires
        spec_cache_wf(entries),
    ensures
        spec_cache_wf(spec_cache_remove(entries, key)),
        spec_cache_lookup(spec_cache_remove(entries, key), key) is None,
    decreases entries.len(),
{
    lemma_cache_lookup_none(spec_cache_remove(entries, key), key);
    if entries.len() > 0 {
        let rest = entries.drop_first();
        assert(forall|i: int, j: int| 0 <= i < j < rest.len() ==> (#[trigger] rest[i]).0 != (
        #[trigger] rest[j]).0) by {
            assert(forall|k: int| 0 <= k < rest.len() ==> (#[trigger] rest[k]) == entries[k + 1]);
        }
        lemma_cache_remove_wf(rest, key);
        if entries[0].0 == key {
            lemma_cache_lookup_none(rest, key);
            assert(forall|k: int| 0 <= k < rest.len() ==> (#[trigger] rest[k]) == entries[k + 1]);
            lemma_cache_lookup_none(entries.drop_first(), key);
        } else {
            let removed = seq![entries[0]] + spec_cache_remove(rest, key);
            lemma_cache_remove_sub(rest, key);
            assert(forall|j: int| 1 <= j < removed.len() ==> (#[trigger] removed[j])
                == spec_cache_remove(rest, key)[j - 1]);
            lemma_cache_lookup_none(spec_cache_remove(rest, key), key);
        }
    }
}

/// Every entry the removal keeps stood among the entries before.
pub proof fn lemma_cache_remove_sub(entries: CacheEntries, key: Seq<char>)
    ensures
        forall|j: int| 0 <= j < spec_cache_remove(entries, key).len() ==> exists|k: int|
            0 <= k < entries.len() && (#[trigger] spec_cache_remove(entries, key)[j]) == entries[k],
    decreases entries.len(),
{
    if entries.len() > 0 {
        lemma_cache_remove_sub(entries.drop_first(), key);
        if entries[0].0 != key {
            let removed = seq![entries[0]] + spec_cache_remove(entries.drop_first(), key);
            assert forall|j: int| 0 <= j < removed.len() implies exists|k: int|
                0 <= k < entries.len() && (#[trigger] removed[j]) == entries[k] by {
                if j == 0 {
                    assert(removed[0] == entries[0]);
                } else {
                    let inner = spec_cache_remove(entries.drop_first(), key);
                    assert(removed[j] == inner[j - 1]);
                    let k = choose|k: int|
                        0 <= k < entries.drop_first().len() && inner[j - 1]
                            == entries.drop_first()[k];
                    assert(removed[j] == entries[k + 1]);
                }
            }
        }
    }
}

/// A cache of uploaded files, keyed by the hex digest of their bytes.
/// No two entries share a key.
#[derive(Debug)]
pub struct FileCache {
    entries: Vec<(String, File)>,
}

impl View for FileCache {
    type V = CacheEntries;

    closed spec fn view(&self) -> CacheEntries {
        Seq::new(self.entries@.len(), |i: int| (self.entries@[i].0@, self.entries@[i].1@))
    }
}

impl FileCache {
    /// An empty cache.
    pub fn new() -> (r: Self)
        ensures
            r@ == Seq::<(Seq<char>, FileView)>::empty(),
            spec_cache_wf(r@),
    {
        let r = FileCache { entries: Vec::new() };
        proof {
            assert(r@ =~= Seq::<(Seq<char>, FileView)>::empty());
        }
        r
    }

    /// The index of the first entry under `hash`, if any.
    #[verifier::loop_isolation(false)]
    fn find(&self, hash: &str) -> (r: Option<usize>)
        ensures
            match r {
                Some(i) => i < self@.len() && self@[i as int].0 == hash@ && forall|j: int|
                    0 <= j < i ==> (#[trigger] self@[j]).0 != hash@,
                None => forall|j: int| 0 <= j < self@.len() ==> (#[trigger] self@[j]).0 != hash@,
            },
    {
        let n = self.entries.len();
        for i in 0..n
            invariant
                forall|j: int| 0 <= j < i ==> (#[trigger] self@[j]).0 != hash@,
        {
            if str_eq(self.entries[i].0.as_str(), hash) {
                return Some(i);
            }
        }
        None
    }

    /// Whether an upload with these bytes is cached.
    pub fn check_file(&self, hash: &str) -> (r: bool)
        ensures
            r == (spec_cache_lookup(self@, hash@) is Some),
    {
        let found = self.find(hash);
        proof {
            match found {
                Some(i) => {
                    lemma_cache_first_match(self@, hash@, i as int);
                },
                None => {
                    lemma_cache_first_match(self@, hash@, self@.len() as int);
                },
            }
        }
        found.is_some()
    }

    /// Takes the entry under `hash` out, handing its record back.
    pub fn remove(&mut self, hash: &str) -> (r: Option<File>)
        requires
            spec_cache_wf(old(self)@),
        ensures
            final(self)@ == spec_cache_remove(old(self)@, hash@),
            spec_cache_wf(final(self)@),
            match r {
                Some(f) => spec_cache_lookup(old(self)@, hash@) == Some(f@),
                None => spec_cache_lookup(old(self)@, hash@) is None,
            },
    {
        proof {
            lemma_cache_remove_wf(old(self)@, hash@);
        }
        match self.find(hash) {
            Some(i) => {
                proof {
                    lemma_cache_first_match(self@, hash@, i as int);
                }
                let (_, f) = self.entries.remove(i);
                proof {
                    assert(self@ =~= old(self)@.subrange(0, i as int) + old(self)@.skip(
                        i + 1,
                    ));
                }
                Some(f)
            },
            None => {
                proof {
                    lemma_cache_first_match(self@, hash@, self@.len() as int);
                    assert(self@ =~= spec_cache_remove(old(self)@, hash@));
                }
                None
            },
        }
    }

    /// Puts a record in under `hash`: whatever sat under the key
    /// leaves, the new pair goes to the end.
    pub fn insert(&mut self, hash: String, file: File)
        requires
            spec_cache_wf(old(self)@),
        ensures
            final(self)@ == spec_cache_insert(old(self)@, hash@, file@),
            spec_cache_wf(final(self)@),
    {
        proof {
            lemma_cache_remove_wf(old(self)@, hash@);
            lemma_cache_lookup_none(spec_cache_remove(old(self)@, hash@), hash@);
        }
        let _ = self.remove(hash.as_str());
        self.entries.push((hash, file));
        proof {
            assert(self@ =~= spec_cache_insert(old(self)@, hash@, file@));
            let entries = self@;
            assert(forall|j: int|
                0 <= j < entries.len() - 1 ==> (#[trigger] entries[j]).0 != entries.last().0);
        }
    }

    /// Looks the upload under `hash` up against a freshness bound:
    /// a cached handle that expires after `threshold` is handed back;
    /// one that does not leaves the cache and is handed back for remote
    /// deletion; an unknown hash changes nothing.
    pub fn get_file(&mut self, hash: &str, threshold: &str) -> (r: (Option<FileData>, Option<File>))
        requires
            spec_cache_wf(old(self)@),
        ensures
            spec_cache_wf(final(self)@),
            match spec_cache_lookup(old(self)@, hash@) {
                None => r.0 is None && r.1 is None && final(self)@ == old(self)@,
                Some(f) => if spec_lex_cmp(f.expiration_time, threshold@) > 0 {
                    (r.0 matches Some(fd) && fd@.mime_type == f.mime_type && fd@.file_uri == f.uri)
                        && r.1 is None && final(self)@ == old(self)@
                } else {
                    r.0 is None && (r.1 matches Some(stale) && stale@ == f) && final(self)@
                        == spec_cache_remove(old(self)@, hash@)
                },
            },
    {
        match self.find(hash) {
            Some(i) => {
                proof {
                    lemma_cache_first_match(self@, hash@, i as int);
                }
                let fresh = str_lex_cmp(self.entries[i].1.expiration_time.as_str(), threshold) > 0;
                if fresh {
                    let fd = FileData {
                        mime_type: self.entries[i].1.mime_type.clone(),
                        file_uri: self.entries[i].1.uri.clone(),
                    };
                    (Some(fd), None)
                } else {
                    let stale = self.remove(hash);
                    (None, stale)
                }
            },
            None => {
                proof {
                    lemma_cache_first_match(self@, hash@, self@.len() as int);
                }
                (None, None)
            },
        }
    }

    /// Empties the cache, handing every record back for remote
    /// deletion.
    #[verifier::loop_isolation(false)]
    pub fn take_all(&mut self) -> (r: Vec<File>)
        ensures
            final(self)@ == Seq::<(Seq<char>, FileView)>::empty(),
            spec_cache_wf(final(self)@),
            r@.len() == old(self)@.len(),
            forall|i: int| 0 <= i < r@.len() ==> r@[i]@ == old(self)@[i].1,
    {
        let mut out: Vec<File> = Vec::new();
        while self.entries.len() > 0
            invariant
                out@.len() + self@.len() == old(self)@.len(),
                forall|i: int| 0 <= i < out@.len() ==> out@[i]@ == old(self)@[i].1,
                forall|i: int| 0 <= i < self@.len() ==> self@[i] == old(self)@[
                    out@.len() + i
                ],
            decreases self.entries.len(),
        {
            let ghost prev = self@;
            let (_, f) = self.entries.remove(0);
            out.push(f);
            proof {
                assert(self@ =~= prev.drop_first());
                assert(out@.last()@ == prev[0].1);
            }
        }
        proof {
            assert(self@ =~= Seq::<(Seq<char>, FileView)>::empty());
        }
        out
    }

    /// Merges a fetched page of records in: each one goes in under its
    /// own digest, carrying the given API key.
    #[verifier::loop_isolation(false)]
    pub fn insert_files(&mut self, files: Vec<File>, api_key: &str)
        requires
            spec_cache_wf(old(self)@),
        ensures
            spec_cache_wf(final(self)@),
            final(self)@ == spec_cache_insert_all(
                old(self)@,
                Seq::new(files@.len(), |i: int| files@[i]@),
                api_key@,
            ),
    {
        let ghost views = Seq::new(files@.len(), |i: int| files@[i]@);
        let n = files.len();
        let mut files = files;
        proof {
            assert(spec_cache_insert_all(old(self)@, views.subrange(0, 0), api_key@) =~= old(
                self,
            )@);
        }
        for i in 0..n
            invariant
                files@.len() + i == n,
                forall|j: int| 0 <= j < files@.len() ==> (#[trigger] files@[j])@ == views[i + j],
                spec_cache_wf(self@),
                self@ == spec_cache_insert_all(old(self)@, views.subrange(0, i as int), api_key@),
        {
            let mut file = files.remove(0);
            file.api_key = api_key.to_owned();
            proof {
                assert(file@ =~~= FileView { api_key: api_key@, ..views[i as int] });
                assert(views.subrange(0, i + 1).drop_last() =~= views.subrange(0, i as int));
                assert(views.subrange(0, i + 1).last() == views[i as int]);
            }
            let hash = file.sha256_hash.clone();
            self.insert(hash, file);
        }
        proof {
            assert(views.subrange(0, n as int) =~= views);
        }
    }
}

/// The entries after every record of `files` went in, in order, each
/// under its own digest and carrying `api_key`.
pub open spec fn spec_cache_insert_all(
    entries: CacheEntries,
    files: Seq<FileView>,
    api_key: Seq<char>,
) -> CacheEntries
    decreases files.len(),
{
    if files.len() == 0 {
        entries
    } else {
        let f = FileView { api_key, ..files.last() };
        spec_cache_insert(
            spec_cache_insert_all(entries, files.drop_last(), api_key),
            f.sha256_hash,
            f,
        )
    }
}

/// The characters of a file name after its last dot, where it has one.
pub open spec fn spec_extension(s: Seq<char>) -> Option<Seq<char>>
    decreases s.len(),
{
    if s.len() == 0 {
        None
    } else if s.last() == '.' {
        Some(Seq::<char>::empty())
    } else {
        match spec_extension(s.drop_last()) {
            Some(e) => Some(e.push(s.last())),
            None => None,
        }
    }
}

/// The extension of a file name: what follows the last dot, or `None`
/// where there is no dot.
pub fn file_extension(name: &str) -> (r: Option<String>)
    ensures
        match r {
            Some(e) => spec_extension(name@) == Some(e@),
            None => spec_extension(name@) is None,
        },
{
    let n = name.unicode_len();
    let mut i = n;
    proof {
        assert(name@.subrange(0, n as int) =~= name@);
        let eo = spec_extension(name@);
        if eo is Some {
            assert(eo.unwrap() + name@.skip(n as int) =~= eo.unwrap());
        }
    }
    while i > 0
        invariant
            i <= n,
            n == name@.len(),
            spec_extension(name@) == match spec_extension(name@.subrange(0, i as int)) {
                Some(e) => Some(e + name@.skip(i as int)),
                None => None::<Seq<char>>,
            },
        decreases i,
    {
        i = i - 1;
        let c = name.get_char(i);
        proof {
            assert(name@.subrange(0, i + 1).drop_last() =~= name@.subrange(0, i as int));
            assert(name@.subrange(0, i + 1).last() == name@[i as int]);
        }
        if c == '.' {
            let ext = name.substring_char(i + 1, n).to_owned();
            proof {
                assert(name@.subrange(i + 1, n as int) =~= name@.skip(i + 1));
                assert(Seq::<char>::empty() + name@.skip(i + 1) =~= name@.skip(i + 1));
            }
            return Some(ext);
        }
        proof {
            let inner = spec_extension(name@.subrange(0, i as int));
            if inner is Some {
                assert(inner.unwrap().push(name@[i as int]) + name@.skip(i + 1) =~= inner.unwrap()
                    + name@.skip(i as int));
            }
        }
    }
    proof {
        assert(name@.subrange(0, 0) =~= Seq::<char>::empty());
    }
    None
}

/// The MIME type an extension stands for, over the formats the API
/// takes.
pub open spec fn spec_mime_of(ext: Seq<char>) -> Option<Seq<char>> {
    if ext == "jpg"@ {
        Some("image/jpeg"@)
    } else if ext == "jpeg"@ {
        Some("image/jpeg"@)
    } else if ext == "png"@ {
        Some("image/png"@)
    } else if ext == "gif"@ {
        Some("image/gif"@)
    } else if ext == "webp"@ {
        Some("image/webp"@)
    } else if ext == "heic"@ {
        Some("image/heic"@)
    } else if ext == "heif"@ {
        Some("image/heif"@)
    } else if ext == "pdf"@ {
        Some("application/pdf"@)
    } else if ext == "txt"@ {
        Some("text/plain"@)
    } else if ext == "html"@ {
        Some("text/html"@)
    } else if ext == "css"@ {
        Some("text/css"@)
    } else if ext == "md"@ {
        Some("text/markdown"@)
    } else if ext == "csv"@ {
        Some("text/csv"@)
    } else if ext == "xml"@ {
        Some("text/xml"@)
    } else if ext == "mp4"@ {
        Some("video/mp4"@)
    } else if ext == "mpeg"@ {
        Some("video/mpeg"@)
    } else if ext == "mov"@ {
        Some("video/quicktime"@)
    } else if ext == "avi"@ {
        Some("video/x-msvideo"@)
    } else if ext == "webm"@ {
        Some("video/webm"@)
    } else if ext == "mp3"@ {
        Some("audio/mpeg"@)
    } else if ext == "wav"@ {
        Some("audio/wav"@)
    } else if ext == "aac"@ {
        Some("audio/aac"@)
    } else if ext == "ogg"@ {
        Some("audio/ogg"@)
    } else if ext == "flac"@ {
        Some("audio/flac"@)
    } else {
        None
    }
}

/// Maps an extension to its MIME type.
pub fn mime_of_extension(ext: &str) -> (r: Option<String>)
    ensures
        match r {
            Some(m) => spec_mime_of(ext@) == Some(m@),
            None => spec_mime_of(ext@) is None,
        },
{
    if str_eq(ext, "jpg") {
        Some(String::from_str("image/jpeg"))
    } else if str_eq(ext, "jpeg") {
        Some(String::from_str("image/jpeg"))
    } else if str_eq(ext, "png") {
        Some(String::from_str("image/png"))
    } else if str_eq(ext, "gif") {
        Some(String::from_str("image/gif"))
    } else if str_eq(ext, "webp") {
        Some(String::from_str("image/webp"))
    } else if str_eq(ext, "heic") {
        Some(String::from_str("image/heic"))
    } else if str_eq(ext, "heif") {
        Some(String::from_str("image/heif"))
    } else if str_eq(ext, "pdf") {
        Some(String::from_str("application/pdf"))
    } else if str_eq(ext, "txt") {
        Some(String::from_str("text/plain"))
    } else if str_eq(ext, "html") {
        Some(String::from_str("text/html"))
    } else if str_eq(ext, "css") {
        Some(String::from_str("text/css"))
    } else if str_eq(ext, "md") {
        Some(String::from_str("text/markdown"))
    } else if str_eq(ext, "csv") {
        Some(String::from_str("text/csv"))
    } else if str_eq(ext, "xml") {
        Some(String::from_str("text/xml"))
    } else if str_eq(ext, "mp4") {
        Some(String::from_str("video/mp4"))
    } else if str_eq(ext, "mpeg") {
        Some(String::from_str("video/mpeg"))
    } else if str_eq(ext, "mov") {
        Some(String::from_str("video/quicktime"))
    } else if str_eq(ext, "avi") {
        Some(String::from_str("video/x-msvideo"))
    } else if str_eq(ext, "webm") {
        Some(String::from_str("video/webm"))
    } else if str_eq(ext, "mp3") {
        Some(String::from_str("audio/mpeg"))
    } else if str_eq(ext, "wav") {
        Some(String::from_str("audio/wav"))
    } else if str_eq(ext, "aac") {
        Some(String::from_str("audio/aac"))
    } else if str_eq(ext, "ogg") {
        Some(String::from_str("audio/ogg"))
    } else if str_eq(ext, "flac") {
        Some(String::from_str("audio/flac"))
    } else {
        None
    }
}

/// The MIME type a file name calls for, judged by its extension.
pub open spec fn spec_mime_of_name(name: Seq<char>) -> Option<Seq<char>> {
    match spec_extension(name) {
        Some(e) => spec_mime_of(e),
        None => None,
    }
}

/// Judges a file's MIME type from its name, as uploads must state one.
pub fn get_mime_type(file_name: &str) -> (r: Option<String>)
    ensures
        match r {
            Some(m) => spec_mime_of_name(file_name@) == Some(m@),
            None => spec_mime_of_name(file_name@) is None,
        },
{
    match file_extension(file_name) {
        Some(ext) => mime_of_extension(ext.as_str()),
        None => None,
    }
}

} // verus!
