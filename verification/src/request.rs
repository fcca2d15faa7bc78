//! The wire request: its shape, its defaults, and its verified JSON
//! rendering.
//!
//! Every spec function here gives the exact text a piece of the request
//! contributes to the body; the builders produce a JSON tree whose
//! rendering is proved equal to that text.

use vstd::prelude::*;

use crate::content::Content;
use crate::content::ContentView;
use crate::content::Context;
use crate::content::NoRoleContent;
use crate::content::Part;
use crate::content::PartData;
use crate::content::PartDataView;
use crate::content::Role;
use crate::content::duplicate_contents;
use crate::json::JsonValue;
use crate::json::lemma_render_items;
use crate::json::lemma_render_members;
use crate::json::spec_arr_text;
use crate::json::spec_milli_text;
use crate::json::spec_obj_text;
use crate::json::spec_render;
use crate::json::spec_render_string;
use crate::json::json_to_string;
use crate::settings::GenerationConfig;
use crate::settings::GenerationConfigView;
use crate::settings::HarmBlockThreshold;
use crate::settings::HarmCategory;
use crate::settings::SafetySetting;
use crate::settings::Settings;
use crate::settings::spec_all_categories;
use crate::text::spec_digits;

verus! {

/// How a turn's role is written: its lowercase name, or `null` where
/// none was set.
pub open spec fn spec_role_text(role: Option<Role>) -> Seq<char> {
    match role {
        Some(Role::Model) => spec_render_string("model"@),
        Some(Role::User) => spec_render_string("user"@),
        None => "null"@,
    }
}

/// How inline bytes are written: their MIME type and base64 data.
pub open spec fn spec_blob_text(mime_type: Seq<char>, data: Seq<char>) -> Seq<char> {
    spec_obj_text(
        seq![
            ("mime_type"@, spec_render_string(mime_type)),
            ("data"@, spec_render_string(data)),
        ],
    )
}

/// How a file handle is written: its MIME type and URI.
pub open spec fn spec_filedata_text(mime_type: Seq<char>, file_uri: Seq<char>) -> Seq<char> {
    spec_obj_text(
        seq![
            ("mime_type"@, spec_render_string(mime_type)),
            ("file_uri"@, spec_render_string(file_uri)),
        ],
    )
}

/// How one part is written: an object with the one key its shape calls
/// for.
pub open spec fn spec_part_text(p: PartDataView) -> Seq<char> {
    match p {
        PartDataView::Text(t) => spec_obj_text(seq![("text"@, spec_render_string(t))]),
        PartDataView::InlineData(b) => spec_obj_text(
            seq![("inline_data"@, spec_blob_text(b.mime_type, b.data))],
        ),
        PartDataView::FileData(f) => spec_obj_text(
            seq![("file_data"@, spec_filedata_text(f.mime_type, f.file_uri))],
        ),
    }
}

/// The texts of a list of parts, one each.
pub open spec fn spec_parts_texts(parts: Seq<PartDataView>) -> Seq<Seq<char>> {
    Seq::new(parts.len(), |i: int| spec_part_text(parts[i]))
}

/// How one turn is written: its parts and its role.
pub open spec fn spec_content_text(c: ContentView) -> Seq<char> {
    spec_obj_text(
        seq![
            ("parts"@, spec_arr_text(spec_parts_texts(c.parts))),
            ("role"@, spec_role_text(c.role)),
        ],
    )
}

/// The texts of a list of turns, one each.
pub open spec fn spec_contents_texts(cs: Seq<ContentView>) -> Seq<Seq<char>> {
    Seq::new(cs.len(), |i: int| spec_content_text(cs[i]))
}

/// The wire name of a harm category.
pub open spec fn spec_category_text(c: HarmCategory) -> Seq<char> {
    match c {
        HarmCategory::HarmCategoryHateSpeech => "HARM_CATEGORY_HATE_SPEECH"@,
        HarmCategory::HarmCategorySexuallyExplicit => "HARM_CATEGORY_SEXUALLY_EXPLICIT"@,
        HarmCategory::HarmCategoryDangerousContent => "HARM_CATEGORY_DANGEROUS_CONTENT"@,
        HarmCategory::HarmCategoryHarassment => "HARM_CATEGORY_HARASSMENT"@,
    }
}

/// The wire name of a blocking threshold.
pub open spec fn spec_threshold_text(t: HarmBlockThreshold) -> Seq<char> {
    match t {
        HarmBlockThreshold::HarmBlockThresholdUnspecified => "HARM_BLOCK_THRESHOLD_UNSPECIFIED"@,
        HarmBlockThreshold::BlockLowAndAbove => "BLOCK_LOW_AND_ABOVE"@,
        HarmBlockThreshold::BlockMediumAndAbove => "BLOCK_MEDIUM_AND_ABOVE"@,
        HarmBlockThreshold::BlockOnlyHigh => "BLOCK_ONLY_HIGH"@,
        HarmBlockThreshold::BlockNone => "BLOCK_NONE"@,
    }
}

/// How one safety setting is written.
pub open spec fn spec_safety_text(s: SafetySetting) -> Seq<char> {
    spec_obj_text(
        seq![
            ("category"@, spec_render_string(spec_category_text(s.category))),
            ("threshold"@, spec_render_string(spec_threshold_text(s.threshold))),
        ],
    )
}

/// How the safety settings are written: an array, or `null` where none
/// were set.
pub open spec fn spec_safety_list_text(o: Option<Seq<SafetySetting>>) -> Seq<char> {
    match o {
        Some(list) => spec_arr_text(Seq::new(list.len(), |i: int| spec_safety_text(list[i]))),
        None => "null"@,
    }
}

/// An optional whole number: its digits, or `null`.
pub open spec fn spec_opt_num_text(o: Option<u32>) -> Seq<char> {
    match o {
        Some(n) => spec_digits(n as int),
        None => "null"@,
    }
}

/// An optional number in thousandths: its decimal text, or `null`.
pub open spec fn spec_opt_milli_text(o: Option<u32>) -> Seq<char> {
    match o {
        Some(m) => spec_milli_text(m as int),
        None => "null"@,
    }
}

/// An optional string: rendered, or `null`.
pub open spec fn spec_opt_string_text(o: Option<Seq<char>>) -> Seq<char> {
    match o {
        Some(s) => spec_render_string(s),
        None => "null"@,
    }
}

/// Optional stop sequences: an array of strings, or `null`.
pub open spec fn spec_stop_sequences_text(o: Option<Seq<Seq<char>>>) -> Seq<char> {
    match o {
        Some(list) => spec_arr_text(Seq::new(list.len(), |i: int| spec_render_string(list[i]))),
        None => "null"@,
    }
}

/// How the generation config is written: each knob under its wire key,
/// unset knobs as `null`.
pub open spec fn spec_config_text(c: GenerationConfigView) -> Seq<char> {
    spec_obj_text(
        seq![
            ("stopSequences"@, spec_stop_sequences_text(c.stop_sequences)),
            ("responseMimeType"@, spec_opt_string_text(c.response_mime_type)),
            ("maxOutputTokens"@, spec_opt_num_text(c.max_output_tokens)),
            ("temperature"@, spec_opt_milli_text(c.temperature_milli)),
            ("topP"@, spec_opt_milli_text(c.top_p_milli)),
            ("topK"@, spec_opt_num_text(c.top_k)),
        ],
    )
}

/// An optional generation config: written out, or `null`.
pub open spec fn spec_opt_config_text(o: Option<GenerationConfigView>) -> Seq<char> {
    match o {
        Some(c) => spec_config_text(c),
        None => "null"@,
    }
}

/// How the system instruction is written: a roleless turn holding its
/// parts, or `null`.
pub open spec fn spec_instruction_text(o: Option<Seq<PartDataView>>) -> Seq<char> {
    match o {
        Some(parts) => spec_obj_text(seq![("parts"@, spec_arr_text(spec_parts_texts(parts)))]),
        None => "null"@,
    }
}

/// The mathematical value of a [`GenerateContentRequest`].
#[verifier::ext_equal]
pub ghost struct RequestView {
    pub contents: Seq<ContentView>,
    pub safety_settings: Option<Seq<SafetySetting>>,
    pub generation_config: Option<GenerationConfigView>,
    pub system_instruction: Option<Seq<PartDataView>>,
}

/// The whole request body: the conversation, the safety settings, the
/// generation config, and the system instruction, in that order.
pub open spec fn spec_request_text(r: RequestView) -> Seq<char> {
    spec_obj_text(
        seq![
            ("contents"@, spec_arr_text(spec_contents_texts(r.contents))),
            ("safetySettings"@, spec_safety_list_text(r.safety_settings)),
            ("generationConfig"@, spec_opt_config_text(r.generation_config)),
            ("systemInstruction"@, spec_instruction_text(r.system_instruction)),
        ],
    )
}

/// Everything one call to the API sends: the conversation and what goes
/// along with it.
#[derive(Debug)]
pub struct GenerateContentRequest {
    pub contents: Vec<Content>,
    pub safety_settings: Option<Vec<SafetySetting>>,
    pub generation_config: Option<GenerationConfig>,
    pub system_instruction: Option<NoRoleContent>,
}

impl View for GenerateContentRequest {
    type V = RequestView;

    open spec fn view(&self) -> RequestView {
        RequestView {
            contents: Seq::new(self.contents@.len(), |i: int| self.contents@[i]@),
            safety_settings: match self.safety_settings {
                Some(v) => Some(v@),
                None => None,
            },
            generation_config: match self.generation_config {
                Some(c) => Some(c@),
                None => None,
            },
            system_instruction: match self.system_instruction {
                Some(p) => Some(p@),
                None => None,
            },
        }
    }
}

/// The generation config used when the caller set none: a token cap of
/// 8192 and a temperature of one.
pub open spec fn spec_default_config() -> GenerationConfigView {
    GenerationConfigView {
        stop_sequences: None,
        response_mime_type: None,
        max_output_tokens: Some(8192),
        temperature_milli: Some(1000),
        top_p_milli: None,
        top_k: None,
    }
}

impl GenerateContentRequest {
    /// Bundles a conversation with its settings, falling back to every
    /// category unblocked and to the default config where the caller
    /// set nothing.
    pub fn new(
        context: &Context,
        config: Option<GenerationConfig>,
        safety: Option<Vec<SafetySetting>>,
        system_instruction: Option<NoRoleContent>,
    ) -> (r: Self)
        ensures
            r@.contents == context@,
            r@.safety_settings == Some(
                match safety {
                    Some(s) => s@,
                    None => spec_all_categories(HarmBlockThreshold::BlockNone),
                },
            ),
            r@.generation_config == Some(
                match config {
                    Some(c) => c@,
                    None => spec_default_config(),
                },
            ),
            r@.system_instruction == match system_instruction {
                Some(p) => Some(p@),
                None => None::<Seq<PartDataView>>,
            },
    {
        let safety_settings = match safety {
            Some(s) => Some(s),
            None => {
                let defaults = vec![
                    SafetySetting {
                        category: HarmCategory::HarmCategoryHateSpeech,
                        threshold: HarmBlockThreshold::BlockNone,
                    },
                    SafetySetting {
                        category: HarmCategory::HarmCategorySexuallyExplicit,
                        threshold: HarmBlockThreshold::BlockNone,
                    },
                    SafetySetting {
                        category: HarmCategory::HarmCategoryDangerousContent,
                        threshold: HarmBlockThreshold::BlockNone,
                    },
                    SafetySetting {
                        category: HarmCategory::HarmCategoryHarassment,
                        threshold: HarmBlockThreshold::BlockNone,
                    },
                ];
                proof {
                    assert(defaults@ =~= spec_all_categories(HarmBlockThreshold::BlockNone));
                }
                Some(defaults)
            },
        };
        let generation_config = match config {
            Some(c) => Some(c),
            None => Some(
                GenerationConfig {
                    stop_sequences: None,
                    response_mime_type: None,
                    max_output_tokens: Some(8192),
                    temperature_milli: Some(1000),
                    top_p_milli: None,
                    top_k: None,
                },
            ),
        };
        let r = GenerateContentRequest {
            contents: duplicate_contents(context.get_contents()),
            safety_settings,
            generation_config,
            system_instruction,
        };
        proof {
            assert(r@.contents =~= context@);
            assert(match config {
                Some(c) => r@.generation_config == Some(c@),
                None => r@.generation_config matches Some(g) && g =~~= spec_default_config(),
            });
        }
        r
    }
}

/// A copy of an optional list of safety settings, value for value.
fn dup_safety(o: &Option<Vec<SafetySetting>>) -> (r: Option<Vec<SafetySetting>>)
    ensures
        match o {
            Some(v) => r matches Some(w) && w@ == v@,
            None => r is None,
        },
{
    match o {
        Some(v) => {
            let mut w: Vec<SafetySetting> = Vec::new();
            let n = v.len();
            for i in 0..n
                invariant
                    n == v.len(),
                    w@.len() == i,
                    forall|j: int| 0 <= j < i ==> w@[j] == v@[j],
            {
                w.push(v[i]);
            }
            proof {
                assert(w@ =~= v@);
            }
            Some(w)
        },
        None => None,
    }
}

/// A copy of an optional string, character for character.
fn dup_opt_string(o: &Option<String>) -> (r: Option<String>)
    ensures
        match o {
            Some(s) => r matches Some(t) && t@ == s@,
            None => r is None,
        },
{
    match o {
        Some(s) => Some(s.clone()),
        None => None,
    }
}

/// A copy of a generation config, knob for knob.
fn dup_config(c: &GenerationConfig) -> (r: GenerationConfig)
    ensures
        r@ == c@,
{
    let stop_sequences = match &c.stop_sequences {
        Some(v) => {
            let mut w: Vec<String> = Vec::new();
            let n = v.len();
            for i in 0..n
                invariant
                    n == v.len(),
                    w@.len() == i,
                    forall|j: int| 0 <= j < i ==> w@[j]@ == v@[j]@,
            {
                w.push(v[i].clone());
            }
            Some(w)
        },
        None => None,
    };
    let r = GenerationConfig {
        stop_sequences,
        response_mime_type: dup_opt_string(&c.response_mime_type),
        max_output_tokens: c.max_output_tokens,
        temperature_milli: c.temperature_milli,
        top_p_milli: c.top_p_milli,
        top_k: c.top_k,
    };
    proof {
        assert(r@ =~~= c@);
    }
    r
}

impl Context {
    /// Bundles this conversation with the given settings into the
    /// request that will be sent: unset safety settings and config fall
    /// back to the defaults, and a system instruction becomes one
    /// roleless text part.
    pub fn build(&self, settings: &Settings) -> (r: GenerateContentRequest)
        ensures
            r@.contents == self@,
            r@.safety_settings == Some(
                match settings@.safety_settings {
                    Some(s) => s,
                    None => spec_all_categories(HarmBlockThreshold::BlockNone),
                },
            ),
            r@.generation_config == Some(
                match settings@.generation_config {
                    Some(c) => c,
                    None => spec_default_config(),
                },
            ),
            r@.system_instruction == match settings@.system_instruction {
                Some(t) => Some(seq![PartDataView::Text(t)]),
                None => None::<Seq<PartDataView>>,
            },
    {
        let config = match &settings.generation_config {
            Some(c) => Some(dup_config(c)),
            None => None,
        };
        let safety = dup_safety(&settings.safety_settings);
        let instruction = match &settings.system_instruction {
            Some(text) => Some(
                NoRoleContent {
                    parts: vec![Part { data: PartData::Text { text: text.clone() } }],
                },
            ),
            None => None,
        };
        let r = GenerateContentRequest::new(self, config, safety, instruction);
        proof {
            assert(match settings@.system_instruction {
                Some(t) => r@.system_instruction matches Some(p) && p =~= seq![
                    PartDataView::Text(t),
                ],
                None => r@.system_instruction is None,
            });
        }
        r
    }
}


/// The role written as a JSON value.
fn role_json(role: &Option<Role>) -> (r: JsonValue)
    ensures
        spec_render(r) == spec_role_text(*role),
{
    match role {
        Some(Role::Model) => JsonValue::Str(String::from_str("model")),
        Some(Role::User) => JsonValue::Str(String::from_str("user")),
        None => JsonValue::Null,
    }
}

/// One part as a JSON value.
fn part_json(p: &Part) -> (r: JsonValue)
    ensures
        spec_render(r) == spec_part_text(p@),
{
    match &p.data {
        PartData::Text { text } => {
            let members = vec![(String::from_str("text"), JsonValue::Str(text.clone()))];
            let ghost kvs = seq![("text"@, spec_render_string(text@))];
            proof {
                lemma_render_members(members@, kvs);
                assert(spec_render(JsonValue::Obj(members)) =~= spec_part_text(p@));
            }
            JsonValue::Obj(members)
        },
        PartData::InlineData { inline_data } => {
            let inner = vec![
                (String::from_str("mime_type"), JsonValue::Str(inline_data.mime_type.clone())),
                (String::from_str("data"), JsonValue::Str(inline_data.data.clone())),
            ];
            let ghost inner_kvs = seq![
                ("mime_type"@, spec_render_string(inline_data.mime_type@)),
                ("data"@, spec_render_string(inline_data.data@)),
            ];
            proof {
                lemma_render_members(inner@, inner_kvs);
                assert(spec_render(JsonValue::Obj(inner)) =~= spec_blob_text(
                    inline_data.mime_type@,
                    inline_data.data@,
                ));
            }
            let members = vec![(String::from_str("inline_data"), JsonValue::Obj(inner))];
            let ghost kvs = seq![
                ("inline_data"@, spec_blob_text(inline_data.mime_type@, inline_data.data@)),
            ];
            proof {
                lemma_render_members(members@, kvs);
                assert(spec_render(JsonValue::Obj(members)) =~= spec_part_text(p@));
            }
            JsonValue::Obj(members)
        },
        PartData::FileData { file_data } => {
            let inner = vec![
                (String::from_str("mime_type"), JsonValue::Str(file_data.mime_type.clone())),
                (String::from_str("file_uri"), JsonValue::Str(file_data.file_uri.clone())),
            ];
            let ghost inner_kvs = seq![
                ("mime_type"@, spec_render_string(file_data.mime_type@)),
                ("file_uri"@, spec_render_string(file_data.file_uri@)),
            ];
            proof {
                lemma_render_members(inner@, inner_kvs);
                assert(spec_render(JsonValue::Obj(inner)) =~= spec_filedata_text(
                    file_data.mime_type@,
                    file_data.file_uri@,
                ));
            }
            let members = vec![(String::from_str("file_data"), JsonValue::Obj(inner))];
            let ghost kvs = seq![
                ("file_data"@, spec_filedata_text(file_data.mime_type@, file_data.file_uri@)),
            ];
            proof {
                lemma_render_members(members@, kvs);
                assert(spec_render(JsonValue::Obj(members)) =~= spec_part_text(p@));
            }
            JsonValue::Obj(members)
        },
    }
}

/// A list of parts as a JSON array.
fn parts_json(parts: &Vec<Part>) -> (r: JsonValue)
    ensures
        spec_render(r) == spec_arr_text(
            spec_parts_texts(Seq::new(parts@.len(), |i: int| parts@[i]@)),
        ),
{
    let ghost views = Seq::new(parts@.len(), |i: int| parts@[i]@);
    let mut items: Vec<JsonValue> = Vec::new();
    let n = parts.len();
    for i in 0..n
        invariant
            n == parts.len(),
            items@.len() == i,
            forall|j: int| 0 <= j < i ==> spec_render(#[trigger] items@[j]) == spec_part_text(
                parts@[j]@,
            ),
    {
        items.push(part_json(&parts[i]));
    }
    proof {
        lemma_render_items(items@, spec_parts_texts(views));
        assert(spec_render(JsonValue::Arr(items)) =~= spec_arr_text(spec_parts_texts(views)));
    }
    JsonValue::Arr(items)
}

/// One turn as a JSON value.
fn content_json(c: &Content) -> (r: JsonValue)
    ensures
        spec_render(r) == spec_content_text(c@),
{
    let parts = parts_json(&c.parts);
    let ghost parts_text = spec_arr_text(spec_parts_texts(c@.parts));
    let role = role_json(&c.role);
    let members = vec![(String::from_str("parts"), parts), (String::from_str("role"), role)];
    let ghost kvs = seq![("parts"@, parts_text), ("role"@, spec_role_text(c.role))];
    proof {
        assert(Seq::new(c.parts@.len(), |i: int| c.parts@[i]@) =~= c@.parts);
        lemma_render_members(members@, kvs);
        assert(spec_render(JsonValue::Obj(members)) =~= spec_content_text(c@));
    }
    JsonValue::Obj(members)
}

/// The conversation as a JSON array of turns.
fn contents_json(contents: &Vec<Content>) -> (r: JsonValue)
    ensures
        spec_render(r) == spec_arr_text(
            spec_contents_texts(Seq::new(contents@.len(), |i: int| contents@[i]@)),
        ),
{
    let ghost views = Seq::new(contents@.len(), |i: int| contents@[i]@);
    let mut items: Vec<JsonValue> = Vec::new();
    let n = contents.len();
    for i in 0..n
        invariant
            n == contents.len(),
            items@.len() == i,
            forall|j: int| 0 <= j < i ==> spec_render(#[trigger] items@[j]) == spec_content_text(
                contents@[j]@,
            ),
    {
        items.push(content_json(&contents[i]));
    }
    proof {
        lemma_render_items(items@, spec_contents_texts(views));
        assert(spec_render(JsonValue::Arr(items)) =~= spec_arr_text(spec_contents_texts(views)));
    }
    JsonValue::Arr(items)
}

/// The wire name of a harm category.
fn category_json(c: &HarmCategory) -> (r: JsonValue)
    ensures
        spec_render(r) == spec_render_string(spec_category_text(*c)),
{
    match c {
        HarmCategory::HarmCategoryHateSpeech => JsonValue::Str(
            String::from_str("HARM_CATEGORY_HATE_SPEECH"),
        ),
        HarmCategory::HarmCategorySexuallyExplicit => JsonValue::Str(
            String::from_str("HARM_CATEGORY_SEXUALLY_EXPLICIT"),
        ),
        HarmCategory::HarmCategoryDangerousContent => JsonValue::Str(
            String::from_str("HARM_CATEGORY_DANGEROUS_CONTENT"),
        ),
        HarmCategory::HarmCategoryHarassment => JsonValue::Str(
            String::from_str("HARM_CATEGORY_HARASSMENT"),
        ),
    }
}

/// The wire name of a blocking threshold.
fn threshold_json(t: &HarmBlockThreshold) -> (r: JsonValue)
    ensures
        spec_render(r) == spec_render_string(spec_threshold_text(*t)),
{
    match t {
        HarmBlockThreshold::HarmBlockThresholdUnspecified => JsonValue::Str(
            String::from_str("HARM_BLOCK_THRESHOLD_UNSPECIFIED"),
        ),
        HarmBlockThreshold::BlockLowAndAbove => JsonValue::Str(
            String::from_str("BLOCK_LOW_AND_ABOVE"),
        ),
        HarmBlockThreshold::BlockMediumAndAbove => JsonValue::Str(
            String::from_str("BLOCK_MEDIUM_AND_ABOVE"),
        ),
        HarmBlockThreshold::BlockOnlyHigh => JsonValue::Str(String::from_str("BLOCK_ONLY_HIGH")),
        HarmBlockThreshold::BlockNone => JsonValue::Str(String::from_str("BLOCK_NONE")),
    }
}

/// One safety setting as a JSON value.
fn safety_json(s: &SafetySetting) -> (r: JsonValue)
    ensures
        spec_render(r) == spec_safety_text(*s),
{
    let members = vec![
        (String::from_str("category"), category_json(&s.category)),
        (String::from_str("threshold"), threshold_json(&s.threshold)),
    ];
    let ghost kvs = seq![
        ("category"@, spec_render_string(spec_category_text(s.category))),
        ("threshold"@, spec_render_string(spec_threshold_text(s.threshold))),
    ];
    proof {
        lemma_render_members(members@, kvs);
        assert(spec_render(JsonValue::Obj(members)) =~= spec_safety_text(*s));
    }
    JsonValue::Obj(members)
}

/// The safety settings as a JSON array, or `null` where none were set.
fn safety_list_json(o: &Option<Vec<SafetySetting>>) -> (r: JsonValue)
    ensures
        spec_render(r) == spec_safety_list_text(
            match o {
                Some(v) => Some(v@),
                None => None,
            },
        ),
{
    match o {
        Some(v) => {
            let mut items: Vec<JsonValue> = Vec::new();
            let n = v.len();
            for i in 0..n
                invariant
                    n == v.len(),
                    items@.len() == i,
                    forall|j: int| 0 <= j < i ==> spec_render(#[trigger] items@[j])
                        == spec_safety_text(v@[j]),
            {
                items.push(safety_json(&v[i]));
            }
            proof {
                lemma_render_items(items@, Seq::new(v@.len(), |i: int| spec_safety_text(v@[i])));
                assert(spec_render(JsonValue::Arr(items)) =~= spec_safety_list_text(Some(v@)));
            }
            JsonValue::Arr(items)
        },
        None => JsonValue::Null,
    }
}

/// An optional whole number as a JSON value.
fn opt_num_json(o: &Option<u32>) -> (r: JsonValue)
    ensures
        spec_render(r) == spec_opt_num_text(*o),
{
    match o {
        Some(n) => JsonValue::Int(*n as i64),
        None => JsonValue::Null,
    }
}

/// An optional number in thousandths as a JSON value.
fn opt_milli_json(o: &Option<u32>) -> (r: JsonValue)
    ensures
        spec_render(r) == spec_opt_milli_text(*o),
{
    match o {
        Some(m) => JsonValue::Milli(*m),
        None => JsonValue::Null,
    }
}

/// An optional string as a JSON value.
fn opt_string_json(o: &Option<String>) -> (r: JsonValue)
    ensures
        spec_render(r) == spec_opt_string_text(
            match o {
                Some(s) => Some(s@),
                None => None,
            },
        ),
{
    match o {
        Some(s) => JsonValue::Str(s.clone()),
        None => JsonValue::Null,
    }
}

/// Optional stop sequences as a JSON array of strings.
fn stop_sequences_json(o: &Option<Vec<String>>) -> (r: JsonValue)
    ensures
        spec_render(r) == spec_stop_sequences_text(
            match o {
                Some(v) => Some(Seq::new(v@.len(), |i: int| v@[i]@)),
                None => None,
            },
        ),
{
    match o {
        Some(v) => {
            let ghost views = Seq::new(v@.len(), |i: int| v@[i]@);
            let mut items: Vec<JsonValue> = Vec::new();
            let n = v.len();
            for i in 0..n
                invariant
                    n == v.len(),
                    items@.len() == i,
                    forall|j: int| 0 <= j < i ==> spec_render(#[trigger] items@[j])
                        == spec_render_string(v@[j]@),
            {
                items.push(JsonValue::Str(v[i].clone()));
            }
            proof {
                lemma_render_items(items@, Seq::new(views.len(), |i: int| spec_render_string(views[i])));
                assert(spec_render(JsonValue::Arr(items)) =~= spec_stop_sequences_text(
                    Some(views),
                ));
            }
            JsonValue::Arr(items)
        },
        None => JsonValue::Null,
    }
}

/// The generation config as a JSON value.
fn config_json(c: &GenerationConfig) -> (r: JsonValue)
    ensures
        spec_render(r) == spec_config_text(c@),
{
    let members = vec![
        (String::from_str("stopSequences"), stop_sequences_json(&c.stop_sequences)),
        (String::from_str("responseMimeType"), opt_string_json(&c.response_mime_type)),
        (String::from_str("maxOutputTokens"), opt_num_json(&c.max_output_tokens)),
        (String::from_str("temperature"), opt_milli_json(&c.temperature_milli)),
        (String::from_str("topP"), opt_milli_json(&c.top_p_milli)),
        (String::from_str("topK"), opt_num_json(&c.top_k)),
    ];
    let ghost kvs = seq![
        ("stopSequences"@, spec_stop_sequences_text(c@.stop_sequences)),
        ("responseMimeType"@, spec_opt_string_text(c@.response_mime_type)),
        ("maxOutputTokens"@, spec_opt_num_text(c@.max_output_tokens)),
        ("temperature"@, spec_opt_milli_text(c@.temperature_milli)),
        ("topP"@, spec_opt_milli_text(c@.top_p_milli)),
        ("topK"@, spec_opt_num_text(c@.top_k)),
    ];
    proof {
        lemma_render_members(members@, kvs);
        assert(spec_render(JsonValue::Obj(members)) =~= spec_config_text(c@));
    }
    JsonValue::Obj(members)
}

/// The system instruction as a JSON value: a roleless turn, or `null`.
fn instruction_json(o: &Option<NoRoleContent>) -> (r: JsonValue)
    ensures
        spec_render(r) == spec_instruction_text(
            match o {
                Some(p) => Some(p@),
                None => None,
            },
        ),
{
    match o {
        Some(content) => {
            let parts = parts_json(&content.parts);
            let members = vec![(String::from_str("parts"), parts)];
            let ghost kvs = seq![("parts"@, spec_arr_text(spec_parts_texts(content@)))];
            proof {
                assert(Seq::new(content.parts@.len(), |i: int| content.parts@[i]@) =~= content@);
                lemma_render_members(members@, kvs);
                assert(spec_render(JsonValue::Obj(members)) =~= spec_instruction_text(
                    Some(content@),
                ));
            }
            JsonValue::Obj(members)
        },
        None => JsonValue::Null,
    }
}

/// The whole request as a JSON value.
pub fn request_json(r: &GenerateContentRequest) -> (j: JsonValue)
    ensures
        spec_render(j) == spec_request_text(r@),
{
    let contents = contents_json(&r.contents);
    let safety = safety_list_json(&r.safety_settings);
    let config = match &r.generation_config {
        Some(c) => config_json(c),
        None => JsonValue::Null,
    };
    let instruction = instruction_json(&r.system_instruction);
    let members = vec![
        (String::from_str("contents"), contents),
        (String::from_str("safetySettings"), safety),
        (String::from_str("generationConfig"), config),
        (String::from_str("systemInstruction"), instruction),
    ];
    let ghost kvs = seq![
        ("contents"@, spec_arr_text(spec_contents_texts(r@.contents))),
        ("safetySettings"@, spec_safety_list_text(r@.safety_settings)),
        ("generationConfig"@, spec_opt_config_text(r@.generation_config)),
        ("systemInstruction"@, spec_instruction_text(r@.system_instruction)),
    ];
    proof {
        lemma_render_members(members@, kvs);
        assert(spec_render(JsonValue::Obj(members)) =~= spec_request_text(r@));
    }
    JsonValue::Obj(members)
}

/// The request body exactly as it goes on the wire.
pub fn request_body(r: &GenerateContentRequest) -> (body: String)
    ensures
        body@ == spec_request_text(r@),
{
    let j = request_json(r);
    json_to_string(&j)
}

} // verus!
