//! The typed response: candidates, feedback and usage, with their
//! verified decoding from the JSON the API answers with.

use vstd::prelude::*;

use crate::content::Blob;
use crate::content::BlobView;
use crate::content::Content;
use crate::content::ContentView;
use crate::content::FileData;
use crate::content::FileDataView;
use crate::content::Part;
use crate::content::PartData;
use crate::content::PartDataView;
use crate::content::Role;
use crate::content::spec_first_text;
use crate::errors::Error;
use crate::errors::ErrorView;
use crate::json::JsonValue;
use crate::text::str_eq;

verus! {

/// Why the model stopped generating a candidate.
#[derive(Debug, Clone, Copy, PartialEq, Eq, Structural)]
pub enum FinishReason {
    FinishReasonUnspecified,
    Stop,
    MaxTokens,
    Safety,
    Recitation,
    Language,
    Other,
    Blocklist,
    ProhibitedContent,
    Spii,
    MalformedFunctionCall,
}

/// Why a prompt was blocked outright.
#[derive(Debug, Clone, Copy, PartialEq, Eq, Structural)]
pub enum BlockReason {
    BlockReasonUnspecified,
    Safety,
    Other,
    Blocklist,
    ProhibitedContent,
}

impl BlockReason {
    /// The reason in words.
    pub open spec fn spec_text(&self) -> Seq<char> {
        match self {
            BlockReason::BlockReasonUnspecified => "Unspecified"@,
            BlockReason::Safety => "Safety"@,
            BlockReason::Other => "Other"@,
            BlockReason::Blocklist => "Blocklist"@,
            BlockReason::ProhibitedContent => "Prohibited Content"@,
        }
    }

    /// Renders the reason in words.
    pub fn to_string(&self) -> (r: String)
        ensures
            r@ == self.spec_text(),
    {
        match self {
            BlockReason::BlockReasonUnspecified => String::from_str("Unspecified"),
            BlockReason::Safety => String::from_str("Safety"),
            BlockReason::Other => String::from_str("Other"),
            BlockReason::Blocklist => String::from_str("Blocklist"),
            BlockReason::ProhibitedContent => String::from_str("Prohibited Content"),
        }
    }
}

/// One safety verdict the API attached to a prompt or a candidate.
#[derive(Debug, Clone)]
pub struct SafetyRating {
    pub category: Option<String>,
    pub probability: Option<String>,
    pub blocked: Option<bool>,
}

/// The mathematical value of a [`SafetyRating`].
#[verifier::ext_equal]
pub ghost struct SafetyRatingView {
    pub category: Option<Seq<char>>,
    pub probability: Option<Seq<char>>,
    pub blocked: Option<bool>,
}

impl View for SafetyRating {
    type V = SafetyRatingView;

    open spec fn view(&self) -> SafetyRatingView {
        SafetyRatingView {
            category: match self.category {
                Some(c) => Some(c@),
                None => None,
            },
            probability: match self.probability {
                Some(p) => Some(p@),
                None => None,
            },
            blocked: self.blocked,
        }
    }
}

/// One answer the model generated.
#[derive(Debug, Clone)]
pub struct Candidate {
    pub content: Option<Content>,
    pub finish_reason: Option<FinishReason>,
    pub safety_ratings: Option<Vec<SafetyRating>>,
    pub token_count: Option<i32>,
    pub index: Option<i32>,
}

/// The mathematical value of a [`Candidate`].
#[verifier::ext_equal]
pub ghost struct CandidateView {
    pub content: Option<ContentView>,
    pub finish_reason: Option<FinishReason>,
    pub safety_ratings: Option<Seq<SafetyRatingView>>,
    pub token_count: Option<i32>,
    pub index: Option<i32>,
}

impl View for Candidate {
    type V = CandidateView;

    open spec fn view(&self) -> CandidateView {
        CandidateView {
            content: match self.content {
                Some(c) => Some(c@),
                None => None,
            },
            finish_reason: self.finish_reason,
            safety_ratings: match self.safety_ratings {
                Some(v) => Some(Seq::new(v@.len(), |i: int| v@[i]@)),
                None => None,
            },
            token_count: self.token_count,
            index: self.index,
        }
    }
}

impl Candidate {
    /// The generated turn, where one survived.
    pub fn get_content(&self) -> (r: Option<&Content>)
        ensures
            match r {
                Some(c) => self@.content == Some(c@),
                None => self@.content is None,
            },
    {
        self.content.as_ref()
    }

    /// Whether this candidate was stopped for safety, recitation or
    /// prohibited content.
    pub fn is_blocked(&self) -> (r: bool)
        ensures
            r == (self@.finish_reason == Some(FinishReason::Safety) || self@.finish_reason == Some(
                FinishReason::Recitation,
            ) || self@.finish_reason == Some(FinishReason::ProhibitedContent)),
    {
        (self.finish_reason == Some(FinishReason::Safety)) || (self.finish_reason == Some(
            FinishReason::Recitation,
        )) || (self.finish_reason == Some(FinishReason::ProhibitedContent))
    }

    /// The token count of this candidate, where the API sent one.
    pub fn get_token_count(&self) -> (r: Option<i32>)
        ensures
            r == self@.token_count,
    {
        self.token_count
    }
}

/// What the API said about the prompt itself.
#[derive(Debug, Clone)]
pub struct PromptFeedback {
    pub block_reason: Option<BlockReason>,
    pub safety_ratings: Vec<SafetyRating>,
}

/// The mathematical value of a [`PromptFeedback`].
#[verifier::ext_equal]
pub ghost struct PromptFeedbackView {
    pub block_reason: Option<BlockReason>,
    pub safety_ratings: Seq<SafetyRatingView>,
}

impl View for PromptFeedback {
    type V = PromptFeedbackView;

    open spec fn view(&self) -> PromptFeedbackView {
        PromptFeedbackView {
            block_reason: self.block_reason,
            safety_ratings: Seq::new(self.safety_ratings@.len(), |i: int| self.safety_ratings@[i]@),
        }
    }
}

impl PromptFeedback {
    /// Why the prompt was blocked, where it was.
    pub fn get_block_reason(&self) -> (r: Option<BlockReason>)
        ensures
            r == self@.block_reason,
    {
        self.block_reason
    }
}

/// Token accounting the API attached to a response.
#[derive(Debug, Clone, Copy)]
pub struct UsageMetadata {
    pub prompt_token_count: Option<i32>,
    pub cached_content_token_count: Option<i32>,
    pub candidates_token_count: Option<i32>,
    pub total_token_count: Option<i32>,
}

impl UsageMetadata {
    /// Tokens the prompt took.
    pub fn get_prompt_token_count(&self) -> (r: Option<i32>)
        ensures
            r == self.prompt_token_count,
    {
        self.prompt_token_count
    }

    /// Tokens answered from cached content.
    pub fn get_cached_content_token_count(&self) -> (r: Option<i32>)
        ensures
            r == self.cached_content_token_count,
    {
        self.cached_content_token_count
    }

    /// Tokens the candidates took together.
    pub fn get_candidates_token_count(&self) -> (r: Option<i32>)
        ensures
            r == self.candidates_token_count,
    {
        self.candidates_token_count
    }

    /// Tokens the whole exchange took.
    pub fn get_total_token_count(&self) -> (r: Option<i32>)
        ensures
            r == self.total_token_count,
    {
        self.total_token_count
    }
}

/// A full answer from the API.
#[derive(Debug, Clone)]
pub struct GenerateContentResponse {
    candidates: Vec<Candidate>,
    prompt_feedback: Option<PromptFeedback>,
    usage_metadata: Option<UsageMetadata>,
}

/// The mathematical value of a [`GenerateContentResponse`].
#[verifier::ext_equal]
pub ghost struct ResponseView {
    pub candidates: Seq<CandidateView>,
    pub prompt_feedback: Option<PromptFeedbackView>,
    pub usage_metadata: Option<UsageMetadata>,
}

impl View for GenerateContentResponse {
    type V = ResponseView;

    closed spec fn view(&self) -> ResponseView {
        ResponseView {
            candidates: Seq::new(self.candidates@.len(), |i: int| self.candidates@[i]@),
            prompt_feedback: match self.prompt_feedback {
                Some(f) => Some(f@),
                None => None,
            },
            usage_metadata: self.usage_metadata,
        }
    }
}

/// The texts of the candidates: the first text part of each candidate
/// that holds content with a text part, in order.
pub open spec fn spec_results(candidates: Seq<CandidateView>) -> Seq<Seq<char>>
    decreases candidates.len(),
{
    if candidates.len() == 0 {
        Seq::<Seq<char>>::empty()
    } else {
        let rest = spec_results(candidates.drop_first());
        match candidates[0].content {
            Some(c) => match spec_first_text(c.parts) {
                Some(t) => seq![t] + rest,
                None => rest,
            },
            None => rest,
        }
    }
}

impl GenerateContentResponse {
    /// Every candidate the API answered with.
    pub fn get_candidates(&self) -> (r: &Vec<Candidate>)
        ensures
            r@.len() == self@.candidates.len(),
            forall|i: int| 0 <= i < r@.len() ==> r@[i]@ == self@.candidates[i],
    {
        &self.candidates
    }

    /// The text of each candidate that carries one.
    #[verifier::loop_isolation(false)]
    pub fn get_results(&self) -> (r: Vec<String>)
        ensures
            Seq::new(r@.len(), |i: int| r@[i]@) == spec_results(self@.candidates),
    {
        let mut texts: Vec<String> = Vec::new();
        let n = self.candidates.len();
        proof {
            assert(self@.candidates.skip(0) =~= self@.candidates);
        }
        for i in 0..n
            invariant
                texts@.len() <= i,
                Seq::new(texts@.len(), |k: int| texts@[k]@) + spec_results(
                    self@.candidates.skip(i as int),
                ) =~= spec_results(self@.candidates),
        {
            proof {
                assert(self@.candidates.skip(i as int)[0] == self@.candidates[i as int]);
                assert(self@.candidates.skip(i as int).drop_first() =~= self@.candidates.skip(
                    i + 1,
                ));
            }
            let ghost texts_before = texts@;
            match self.candidates[i].get_content() {
                Some(content) => {
                    match content.get_text() {
                        Some(text) => {
                            texts.push(text);
                            proof {
                                assert(Seq::new(texts@.len(), |k: int| texts@[k]@) =~= Seq::new(
                                    texts_before.len(),
                                    |k: int| texts_before[k]@,
                                ).push(texts@.last()@));
                            }
                        },
                        None => {},
                    }
                },
                None => {},
            }
        }
        proof {
            assert(self@.candidates.skip(n as int) =~= Seq::<CandidateView>::empty());
            assert(Seq::new(texts@.len(), |k: int| texts@[k]@) + spec_results(
                Seq::<CandidateView>::empty(),
            ) =~= Seq::new(texts@.len(), |k: int| texts@[k]@));
        }
        texts
    }

    /// Usage accounting, where the API sent it.
    pub fn get_usage_metadata(&self) -> (r: Option<&UsageMetadata>)
        ensures
            match r {
                Some(u) => self@.usage_metadata == Some(*u),
                None => self@.usage_metadata is None,
            },
    {
        self.usage_metadata.as_ref()
    }

    /// The prompt feedback, where the API sent any.
    pub fn get_prompt_feedback(&self) -> (r: Option<&PromptFeedback>)
        ensures
            match r {
                Some(f) => self@.prompt_feedback == Some(f@),
                None => self@.prompt_feedback is None,
            },
    {
        self.prompt_feedback.as_ref()
    }

    /// The block reason in the prompt feedback, where both exist.
    pub fn feedback(&self) -> (r: Option<BlockReason>)
        ensures
            r == match self@.prompt_feedback {
                Some(f) => f.block_reason,
                None => None::<BlockReason>,
            },
    {
        match &self.prompt_feedback {
            Some(f) => f.block_reason,
            None => None,
        }
    }
}

/// The finish reason a wire name stands for, if any.
pub open spec fn spec_finish_reason_of(s: Seq<char>) -> Option<FinishReason> {
    if s == "FINISH_REASON_UNSPECIFIED"@ {
        Some(FinishReason::FinishReasonUnspecified)
    } else if s == "STOP"@ {
        Some(FinishReason::Stop)
    } else if s == "MAX_TOKENS"@ {
        Some(FinishReason::MaxTokens)
    } else if s == "SAFETY"@ {
        Some(FinishReason::Safety)
    } else if s == "RECITATION"@ {
        Some(FinishReason::Recitation)
    } else if s == "LANGUAGE"@ {
        Some(FinishReason::Language)
    } else if s == "OTHER"@ {
        Some(FinishReason::Other)
    } else if s == "BLOCKLIST"@ {
        Some(FinishReason::Blocklist)
    } else if s == "PROHIBITED_CONTENT"@ {
        Some(FinishReason::ProhibitedContent)
    } else if s == "SPII"@ {
        Some(FinishReason::Spii)
    } else if s == "MALFORMED_FUNCTION_CALL"@ {
        Some(FinishReason::MalformedFunctionCall)
    } else {
        None
    }
}

/// The block reason a wire name stands for, if any.
pub open spec fn spec_block_reason_of(s: Seq<char>) -> Option<BlockReason> {
    if s == "BLOCK_REASON_UNSPECIFIED"@ {
        Some(BlockReason::BlockReasonUnspecified)
    } else if s == "SAFETY"@ {
        Some(BlockReason::Safety)
    } else if s == "OTHER"@ {
        Some(BlockReason::Other)
    } else if s == "BLOCKLIST"@ {
        Some(BlockReason::Blocklist)
    } else if s == "PROHIBITED_CONTENT"@ {
        Some(BlockReason::ProhibitedContent)
    } else {
        None
    }
}

/// The role a wire name stands for, if any.
pub open spec fn spec_role_of(s: Seq<char>) -> Option<Role> {
    if s == "model"@ {
        Some(Role::Model)
    } else if s == "user"@ {
        Some(Role::User)
    } else {
        None
    }
}

/// An optional string field: missing or `null` is `None`; any other
/// shape than a string is a decode error.
pub open spec fn spec_opt_string_field(v: JsonValue, key: Seq<char>) -> Option<Option<Seq<char>>> {
    match v.spec_get(key) {
        None => Some(None),
        Some(JsonValue::Null) => Some(None),
        Some(JsonValue::Str(s)) => Some(Some(s@)),
        Some(_) => None,
    }
}

/// An optional boolean field, as [`spec_opt_string_field`] but for
/// booleans.
pub open spec fn spec_opt_bool_field(v: JsonValue, key: Seq<char>) -> Option<Option<bool>> {
    match v.spec_get(key) {
        None => Some(None),
        Some(JsonValue::Null) => Some(None),
        Some(JsonValue::Bool(b)) => Some(Some(b)),
        Some(_) => None,
    }
}

/// An optional 32-bit integer field: a number out of range is a decode
/// error, as is any shape other than an integer.
pub open spec fn spec_opt_i32_field(v: JsonValue, key: Seq<char>) -> Option<Option<i32>> {
    match v.spec_get(key) {
        None => Some(None),
        Some(JsonValue::Null) => Some(None),
        Some(JsonValue::Int(n)) => if -0x8000_0000 <= n <= 0x7fff_ffff {
            Some(Some(n as i32))
        } else {
            None
        },
        Some(_) => None,
    }
}

/// Inline bytes out of JSON: both fields are required strings.
pub open spec fn spec_decode_blob(v: JsonValue) -> Option<BlobView> {
    match (v.spec_get("mime_type"@), v.spec_get("data"@)) {
        (Some(JsonValue::Str(m)), Some(JsonValue::Str(d))) => Some(
            BlobView { mime_type: m@, data: d@ },
        ),
        _ => None,
    }
}

/// A file handle out of JSON: both fields are required strings.
pub open spec fn spec_decode_filedata(v: JsonValue) -> Option<FileDataView> {
    match (v.spec_get("mime_type"@), v.spec_get("file_uri"@)) {
        (Some(JsonValue::Str(m)), Some(JsonValue::Str(u))) => Some(
            FileDataView { mime_type: m@, file_uri: u@ },
        ),
        _ => None,
    }
}

/// One part out of JSON: the key that is present picks the shape;
/// inline bytes win over a file handle, which wins over text.
pub open spec fn spec_decode_part(v: JsonValue) -> Option<PartDataView> {
    if v.spec_get("inline_data"@) is Some {
        match spec_decode_blob(v.spec_get("inline_data"@).unwrap()) {
            Some(b) => Some(PartDataView::InlineData(b)),
            None => None,
        }
    } else if v.spec_get("file_data"@) is Some {
        match spec_decode_filedata(v.spec_get("file_data"@).unwrap()) {
            Some(f) => Some(PartDataView::FileData(f)),
            None => None,
        }
    } else {
        match v.spec_get("text"@) {
            Some(JsonValue::Str(t)) => Some(PartDataView::Text(t@)),
            _ => None,
        }
    }
}

/// A list of parts out of JSON; any bad element fails the list.
pub open spec fn spec_decode_parts(items: Seq<JsonValue>) -> Option<Seq<PartDataView>>
    decreases items.len(),
{
    if items.len() == 0 {
        Some(Seq::<PartDataView>::empty())
    } else {
        match (spec_decode_part(items[0]), spec_decode_parts(items.drop_first())) {
            (Some(p), Some(rest)) => Some(seq![p] + rest),
            _ => None,
        }
    }
}

/// A turn out of JSON: `parts` is a required array; `role`, where
/// present, must be a known role name.
pub open spec fn spec_decode_content(v: JsonValue) -> Option<ContentView> {
    match v.spec_get("parts"@) {
        Some(JsonValue::Arr(items)) => match spec_decode_parts(items@) {
            Some(parts) => match v.spec_get("role"@) {
                None => Some(ContentView { role: None, parts }),
                Some(JsonValue::Null) => Some(ContentView { role: None, parts }),
                Some(JsonValue::Str(s)) => match spec_role_of(s@) {
                    Some(role) => Some(ContentView { role: Some(role), parts }),
                    None => None,
                },
                Some(_) => None,
            },
            None => None,
        },
        _ => None,
    }
}

/// One safety verdict out of JSON: three optional fields.
pub open spec fn spec_decode_rating(v: JsonValue) -> Option<SafetyRatingView> {
    if !(v is Obj) {
        None
    } else {
        match (
            spec_opt_string_field(v, "category"@),
            spec_opt_string_field(v, "probability"@),
            spec_opt_bool_field(v, "blocked"@),
        ) {
            (Some(category), Some(probability), Some(blocked)) => Some(
                SafetyRatingView { category, probability, blocked },
            ),
            _ => None,
        }
    }
}

/// A list of safety verdicts out of JSON.
pub open spec fn spec_decode_ratings(items: Seq<JsonValue>) -> Option<Seq<SafetyRatingView>>
    decreases items.len(),
{
    if items.len() == 0 {
        Some(Seq::<SafetyRatingView>::empty())
    } else {
        match (spec_decode_rating(items[0]), spec_decode_ratings(items.drop_first())) {
            (Some(r), Some(rest)) => Some(seq![r] + rest),
            _ => None,
        }
    }
}

/// An optional list of safety verdicts under `key`.
pub open spec fn spec_opt_ratings_field(v: JsonValue, key: Seq<char>) -> Option<
    Option<Seq<SafetyRatingView>>,
> {
    match v.spec_get(key) {
        None => Some(None),
        Some(JsonValue::Null) => Some(None),
        Some(JsonValue::Arr(items)) => match spec_decode_ratings(items@) {
            Some(rs) => Some(Some(rs)),
            None => None,
        },
        Some(_) => None,
    }
}

/// One candidate out of JSON: every field is optional; a present field
/// of the wrong shape is a decode error.
pub open spec fn spec_decode_candidate(v: JsonValue) -> Option<CandidateView> {
    if !(v is Obj) {
        None
    } else {
        let content = match v.spec_get("content"@) {
            None => Some(None),
            Some(JsonValue::Null) => Some(None::<ContentView>),
            Some(c) => match spec_decode_content(c) {
                Some(cv) => Some(Some(cv)),
                None => None,
            },
        };
        let finish_reason = match v.spec_get("finishReason"@) {
            None => Some(None),
            Some(JsonValue::Null) => Some(None::<FinishReason>),
            Some(JsonValue::Str(s)) => match spec_finish_reason_of(s@) {
                Some(f) => Some(Some(f)),
                None => None,
            },
            Some(_) => None,
        };
        match (
            content,
            finish_reason,
            spec_opt_ratings_field(v, "safetyRatings"@),
            spec_opt_i32_field(v, "tokenCount"@),
            spec_opt_i32_field(v, "index"@),
        ) {
            (Some(content), Some(finish_reason), Some(safety_ratings), Some(token_count), Some(
                index,
            )) => Some(CandidateView { content, finish_reason, safety_ratings, token_count, index }),
            _ => None,
        }
    }
}

/// A list of candidates out of JSON.
pub open spec fn spec_decode_candidates(items: Seq<JsonValue>) -> Option<Seq<CandidateView>>
    decreases items.len(),
{
    if items.len() == 0 {
        Some(Seq::<CandidateView>::empty())
    } else {
        match (spec_decode_candidate(items[0]), spec_decode_candidates(items.drop_first())) {
            (Some(c), Some(rest)) => Some(seq![c] + rest),
            _ => None,
        }
    }
}

/// Prompt feedback out of JSON: the safety verdicts are required, the
/// block reason is optional.
pub open spec fn spec_decode_feedback(v: JsonValue) -> Option<PromptFeedbackView> {
    if !(v is Obj) {
        None
    } else {
        let block_reason = match v.spec_get("blockReason"@) {
            None => Some(None),
            Some(JsonValue::Null) => Some(None::<BlockReason>),
            Some(JsonValue::Str(s)) => match spec_block_reason_of(s@) {
                Some(b) => Some(Some(b)),
                None => None,
            },
            Some(_) => None,
        };
        match (block_reason, v.spec_get("safetyRatings"@)) {
            (Some(block_reason), Some(JsonValue::Arr(items))) => match spec_decode_ratings(
                items@,
            ) {
                Some(safety_ratings) => Some(PromptFeedbackView { block_reason, safety_ratings }),
                None => None,
            },
            _ => None,
        }
    }
}

/// Usage accounting out of JSON: four optional 32-bit counters.
pub open spec fn spec_decode_usage(v: JsonValue) -> Option<UsageMetadata> {
    if !(v is Obj) {
        None
    } else {
        match (
            spec_opt_i32_field(v, "promptTokenCount"@),
            spec_opt_i32_field(v, "cachedContentTokenCount"@),
            spec_opt_i32_field(v, "candidatesTokenCount"@),
            spec_opt_i32_field(v, "totalTokenCount"@),
        ) {
            (Some(prompt_token_count), Some(cached_content_token_count), Some(
                candidates_token_count,
            ), Some(total_token_count)) => Some(
                UsageMetadata {
                    prompt_token_count,
                    cached_content_token_count,
                    candidates_token_count,
                    total_token_count,
                },
            ),
            _ => None,
        }
    }
}

/// A whole response out of JSON: `candidates` is a required array;
/// feedback and usage are optional objects.
pub open spec fn spec_decode_response(v: JsonValue) -> Option<ResponseView> {
    match v.spec_get("candidates"@) {
        Some(JsonValue::Arr(items)) => match spec_decode_candidates(items@) {
            Some(candidates) => {
                let feedback = match v.spec_get("promptFeedback"@) {
                    None => Some(None),
                    Some(JsonValue::Null) => Some(None::<PromptFeedbackView>),
                    Some(f) => match spec_decode_feedback(f) {
                        Some(fv) => Some(Some(fv)),
                        None => None,
                    },
                };
                let usage = match v.spec_get("usageMetadata"@) {
                    None => Some(None),
                    Some(JsonValue::Null) => Some(None::<UsageMetadata>),
                    Some(u) => match spec_decode_usage(u) {
                        Some(uv) => Some(Some(uv)),
                        None => None,
                    },
                };
                match (feedback, usage) {
                    (Some(prompt_feedback), Some(usage_metadata)) => Some(
                        ResponseView { candidates, prompt_feedback, usage_metadata },
                    ),
                    _ => None,
                }
            },
            None => None,
        },
        _ => None,
    }
}

/// Decodes the wire name of a finish reason.
fn decode_finish_reason(s: &str) -> (r: Option<FinishReason>)
    ensures
        r == spec_finish_reason_of(s@),
{
    if str_eq(s, "FINISH_REASON_UNSPECIFIED") {
        Some(FinishReason::FinishReasonUnspecified)
    } else if str_eq(s, "STOP") {
        Some(FinishReason::Stop)
    } else if str_eq(s, "MAX_TOKENS") {
        Some(FinishReason::MaxTokens)
    } else if str_eq(s, "SAFETY") {
        Some(FinishReason::Safety)
    } else if str_eq(s, "RECITATION") {
        Some(FinishReason::Recitation)
    } else if str_eq(s, "LANGUAGE") {
        Some(FinishReason::Language)
    } else if str_eq(s, "OTHER") {
        Some(FinishReason::Other)
    } else if str_eq(s, "BLOCKLIST") {
        Some(FinishReason::Blocklist)
    } else if str_eq(s, "PROHIBITED_CONTENT") {
        Some(FinishReason::ProhibitedContent)
    } else if str_eq(s, "SPII") {
        Some(FinishReason::Spii)
    } else if str_eq(s, "MALFORMED_FUNCTION_CALL") {
        Some(FinishReason::MalformedFunctionCall)
    } else {
        None
    }
}

/// Decodes the wire name of a block reason.
fn decode_block_reason(s: &str) -> (r: Option<BlockReason>)
    ensures
        r == spec_block_reason_of(s@),
{
    if str_eq(s, "BLOCK_REASON_UNSPECIFIED") {
        Some(BlockReason::BlockReasonUnspecified)
    } else if str_eq(s, "SAFETY") {
        Some(BlockReason::Safety)
    } else if str_eq(s, "OTHER") {
        Some(BlockReason::Other)
    } else if str_eq(s, "BLOCKLIST") {
        Some(BlockReason::Blocklist)
    } else if str_eq(s, "PROHIBITED_CONTENT") {
        Some(BlockReason::ProhibitedContent)
    } else {
        None
    }
}

/// Decodes the wire name of a role.
fn decode_role(s: &str) -> (r: Option<Role>)
    ensures
        r == spec_role_of(s@),
{
    if str_eq(s, "model") {
        Some(Role::Model)
    } else if str_eq(s, "user") {
        Some(Role::User)
    } else {
        None
    }
}

/// Reads an optional string field; the outer `None` is a decode error.
fn get_opt_string_field(v: &JsonValue, key: &str) -> (r: Option<Option<String>>)
    ensures
        match r {
            Some(None) => spec_opt_string_field(*v, key@) == Some(None::<Seq<char>>),
            Some(Some(s)) => spec_opt_string_field(*v, key@) == Some(Some(s@)),
            None => spec_opt_string_field(*v, key@) is None,
        },
{
    match v.get(key) {
        None => Some(None),
        Some(JsonValue::Null) => Some(None),
        Some(JsonValue::Str(s)) => Some(Some(s.clone())),
        Some(_) => None,
    }
}

/// Reads an optional boolean field; the outer `None` is a decode error.
fn get_opt_bool_field(v: &JsonValue, key: &str) -> (r: Option<Option<bool>>)
    ensures
        match r {
            Some(b) => spec_opt_bool_field(*v, key@) == Some(b),
            None => spec_opt_bool_field(*v, key@) is None,
        },
{
    match v.get(key) {
        None => Some(None),
        Some(JsonValue::Null) => Some(None),
        Some(JsonValue::Bool(b)) => Some(Some(*b)),
        Some(_) => None,
    }
}

/// Reads an optional 32-bit integer field; the outer `None` is a decode
/// error, out-of-range numbers included.
fn get_opt_i32_field(v: &JsonValue, key: &str) -> (r: Option<Option<i32>>)
    ensures
        match r {
            Some(n) => spec_opt_i32_field(*v, key@) == Some(n),
            None => spec_opt_i32_field(*v, key@) is None,
        },
{
    match v.get(key) {
        None => Some(None),
        Some(JsonValue::Null) => Some(None),
        Some(JsonValue::Int(n)) => {
            if -0x8000_0000i64 <= *n && *n <= 0x7fff_ffffi64 {
                Some(Some(*n as i32))
            } else {
                None
            }
        },
        Some(_) => None,
    }
}

/// Decodes inline bytes.
fn decode_blob(v: &JsonValue) -> (r: Option<Blob>)
    ensures
        match r {
            Some(b) => spec_decode_blob(*v) == Some(b@),
            None => spec_decode_blob(*v) is None,
        },
{
    match (v.get("mime_type"), v.get("data")) {
        (Some(JsonValue::Str(m)), Some(JsonValue::Str(d))) => Some(
            Blob { mime_type: m.clone(), data: d.clone() },
        ),
        _ => None,
    }
}

/// Decodes a file handle.
fn decode_filedata(v: &JsonValue) -> (r: Option<FileData>)
    ensures
        match r {
            Some(f) => spec_decode_filedata(*v) == Some(f@),
            None => spec_decode_filedata(*v) is None,
        },
{
    match (v.get("mime_type"), v.get("file_uri")) {
        (Some(JsonValue::Str(m)), Some(JsonValue::Str(u))) => Some(
            FileData { mime_type: m.clone(), file_uri: u.clone() },
        ),
        _ => None,
    }
}

/// Decodes one part.
fn decode_part(v: &JsonValue) -> (r: Option<Part>)
    ensures
        match r {
            Some(p) => spec_decode_part(*v) == Some(p@),
            None => spec_decode_part(*v) is None,
        },
{
    match v.get("inline_data") {
        Some(inner) => match decode_blob(inner) {
            Some(b) => Some(Part { data: PartData::InlineData { inline_data: b } }),
            None => None,
        },
        None => match v.get("file_data") {
            Some(inner) => match decode_filedata(inner) {
                Some(f) => Some(Part { data: PartData::FileData { file_data: f } }),
                None => None,
            },
            None => match v.get("text") {
                Some(JsonValue::Str(t)) => Some(Part { data: PartData::Text { text: t.clone() } }),
                _ => None,
            },
        },
    }
}

/// Decodes a list of parts; any bad element fails the list.
#[verifier::loop_isolation(false)]
fn decode_parts(items: &Vec<JsonValue>) -> (r: Option<Vec<Part>>)
    ensures
        match r {
            Some(ps) => spec_decode_parts(items@) == Some(Seq::new(ps@.len(), |k: int| ps@[k]@)),
            None => spec_decode_parts(items@) is None,
        },
{
    let mut out: Vec<Part> = Vec::new();
    let n = items.len();
    proof {
        assert(items@.skip(0) =~= items@);
        assert(Seq::new(0, |k: int| out@[k]@) + Seq::<PartDataView>::empty() =~= Seq::new(
            0,
            |k: int| out@[k]@,
        ));
    }
    for i in 0..n
        invariant
            out@.len() <= i,
            match spec_decode_parts(items@.skip(i as int)) {
                Some(rest) => spec_decode_parts(items@) == Some(
                    Seq::new(out@.len(), |k: int| out@[k]@) + rest,
                ),
                None => spec_decode_parts(items@) is None,
            },
    {
        proof {
            assert(items@.skip(i as int)[0] == items@[i as int]);
            assert(items@.skip(i as int).drop_first() =~= items@.skip(i + 1));
        }
        let ghost out_before = out@;
        match decode_part(&items[i]) {
            Some(p) => {
                out.push(p);
                proof {
                    let rest_opt = spec_decode_parts(items@.skip(i + 1));
                    if rest_opt is Some {
                        assert(Seq::new(out_before.len(), |k: int| out_before[k]@) + (seq![
                            out@.last()@,
                        ] + rest_opt.unwrap()) =~= Seq::new(out@.len(), |k: int| out@[k]@)
                            + rest_opt.unwrap());
                    }
                }
            },
            None => {
                return None;
            },
        }
    }
    proof {
        assert(items@.skip(n as int) =~= Seq::<JsonValue>::empty());
        assert(Seq::new(out@.len(), |k: int| out@[k]@) + Seq::<PartDataView>::empty() =~= Seq::new(
            out@.len(),
            |k: int| out@[k]@,
        ));
    }
    Some(out)
}

/// Decodes one turn.
fn decode_content(v: &JsonValue) -> (r: Option<Content>)
    ensures
        match r {
            Some(c) => spec_decode_content(*v) == Some(c@),
            None => spec_decode_content(*v) is None,
        },
{
    match v.get("parts") {
        Some(JsonValue::Arr(items)) => match decode_parts(items) {
            Some(parts) => {
                let role = match v.get("role") {
                    None => None,
                    Some(JsonValue::Null) => None,
                    Some(JsonValue::Str(s)) => match decode_role(s.as_str()) {
                        Some(role) => Some(role),
                        None => {
                            return None;
                        },
                    },
                    Some(_) => {
                        return None;
                    },
                };
                let c = Content { parts, role };
                proof {
                    assert(spec_decode_content(*v) matches Some(cv) && cv =~~= c@);
                }
                Some(c)
            },
            None => None,
        },
        _ => None,
    }
}

/// Decodes one safety verdict.
fn decode_rating(v: &JsonValue) -> (r: Option<SafetyRating>)
    ensures
        match r {
            Some(s) => spec_decode_rating(*v) == Some(s@),
            None => spec_decode_rating(*v) is None,
        },
{
    match v {
        JsonValue::Obj(_) => {},
        _ => {
            return None;
        },
    }
    let category = match get_opt_string_field(v, "category") {
        Some(c) => c,
        None => {
            return None;
        },
    };
    let probability = match get_opt_string_field(v, "probability") {
        Some(p) => p,
        None => {
            return None;
        },
    };
    let blocked = match get_opt_bool_field(v, "blocked") {
        Some(b) => b,
        None => {
            return None;
        },
    };
    let s = SafetyRating { category, probability, blocked };
    proof {
        assert(spec_decode_rating(*v) matches Some(sv) && sv =~~= s@);
    }
    Some(s)
}

/// Decodes a list of safety verdicts.
#[verifier::loop_isolation(false)]
fn decode_ratings(items: &Vec<JsonValue>) -> (r: Option<Vec<SafetyRating>>)
    ensures
        match r {
            Some(rs) => spec_decode_ratings(items@) == Some(Seq::new(rs@.len(), |k: int| rs@[k]@)),
            None => spec_decode_ratings(items@) is None,
        },
{
    let mut out: Vec<SafetyRating> = Vec::new();
    let n = items.len();
    proof {
        assert(items@.skip(0) =~= items@);
        assert(Seq::new(0, |k: int| out@[k]@) + Seq::<SafetyRatingView>::empty() =~= Seq::new(
            0,
            |k: int| out@[k]@,
        ));
    }
    for i in 0..n
        invariant
            out@.len() <= i,
            match spec_decode_ratings(items@.skip(i as int)) {
                Some(rest) => spec_decode_ratings(items@) == Some(
                    Seq::new(out@.len(), |k: int| out@[k]@) + rest,
                ),
                None => spec_decode_ratings(items@) is None,
            },
    {
        proof {
            assert(items@.skip(i as int)[0] == items@[i as int]);
            assert(items@.skip(i as int).drop_first() =~= items@.skip(i + 1));
        }
        let ghost out_before = out@;
        match decode_rating(&items[i]) {
            Some(s) => {
                out.push(s);
                proof {
                    let rest_opt = spec_decode_ratings(items@.skip(i + 1));
                    if rest_opt is Some {
                        assert(Seq::new(out_before.len(), |k: int| out_before[k]@) + (seq![
                            out@.last()@,
                        ] + rest_opt.unwrap()) =~= Seq::new(out@.len(), |k: int| out@[k]@)
                            + rest_opt.unwrap());
                    }
                }
            },
            None => {
                return None;
            },
        }
    }
    proof {
        assert(items@.skip(n as int) =~= Seq::<JsonValue>::empty());
        assert(Seq::new(out@.len(), |k: int| out@[k]@) + Seq::<SafetyRatingView>::empty()
            =~= Seq::new(out@.len(), |k: int| out@[k]@));
    }
    Some(out)
}

/// Reads an optional list of safety verdicts under `key`.
fn get_opt_ratings_field(v: &JsonValue, key: &str) -> (r: Option<Option<Vec<SafetyRating>>>)
    ensures
        match r {
            Some(None) => spec_opt_ratings_field(*v, key@) == Some(
                None::<Seq<SafetyRatingView>>,
            ),
            Some(Some(rs)) => spec_opt_ratings_field(*v, key@) == Some(
                Some(Seq::new(rs@.len(), |k: int| rs@[k]@)),
            ),
            None => spec_opt_ratings_field(*v, key@) is None,
        },
{
    match v.get(key) {
        None => Some(None),
        Some(JsonValue::Null) => Some(None),
        Some(JsonValue::Arr(items)) => match decode_ratings(items) {
            Some(rs) => Some(Some(rs)),
            None => None,
        },
        Some(_) => None,
    }
}

/// Decodes one candidate.
fn decode_candidate(v: &JsonValue) -> (r: Option<Candidate>)
    ensures
        match r {
            Some(c) => spec_decode_candidate(*v) == Some(c@),
            None => spec_decode_candidate(*v) is None,
        },
{
    match v {
        JsonValue::Obj(_) => {},
        _ => {
            return None;
        },
    }
    let content = match v.get("content") {
        None => None,
        Some(JsonValue::Null) => None,
        Some(c) => match decode_content(c) {
            Some(cv) => Some(cv),
            None => {
                return None;
            },
        },
    };
    let finish_reason = match v.get("finishReason") {
        None => None,
        Some(JsonValue::Null) => None,
        Some(JsonValue::Str(s)) => match decode_finish_reason(s.as_str()) {
            Some(f) => Some(f),
            None => {
                return None;
            },
        },
        Some(_) => {
            return None;
        },
    };
    let safety_ratings = match get_opt_ratings_field(v, "safetyRatings") {
        Some(rs) => rs,
        None => {
            return None;
        },
    };
    let token_count = match get_opt_i32_field(v, "tokenCount") {
        Some(n) => n,
        None => {
            return None;
        },
    };
    let index = match get_opt_i32_field(v, "index") {
        Some(n) => n,
        None => {
            return None;
        },
    };
    let c = Candidate { content, finish_reason, safety_ratings, token_count, index };
    proof {
        assert(spec_decode_candidate(*v) matches Some(cv) && cv =~~= c@);
    }
    Some(c)
}

/// Decodes a list of candidates.
#[verifier::loop_isolation(false)]
fn decode_candidates(items: &Vec<JsonValue>) -> (r: Option<Vec<Candidate>>)
    ensures
        match r {
            Some(cs) => spec_decode_candidates(items@) == Some(
                Seq::new(cs@.len(), |k: int| cs@[k]@),
            ),
            None => spec_decode_candidates(items@) is None,
        },
{
    let mut out: Vec<Candidate> = Vec::new();
    let n = items.len();
    proof {
        assert(items@.skip(0) =~= items@);
        assert(Seq::new(0, |k: int| out@[k]@) + Seq::<CandidateView>::empty() =~= Seq::new(
            0,
            |k: int| out@[k]@,
        ));
    }
    for i in 0..n
        invariant
            out@.len() <= i,
            match spec_decode_candidates(items@.skip(i as int)) {
                Some(rest) => spec_decode_candidates(items@) == Some(
                    Seq::new(out@.len(), |k: int| out@[k]@) + rest,
                ),
                None => spec_decode_candidates(items@) is None,
            },
    {
        proof {
            assert(items@.skip(i as int)[0] == items@[i as int]);
            assert(items@.skip(i as int).drop_first() =~= items@.skip(i + 1));
        }
        let ghost out_before = out@;
        match decode_candidate(&items[i]) {
            Some(c) => {
                out.push(c);
                proof {
                    let rest_opt = spec_decode_candidates(items@.skip(i + 1));
                    if rest_opt is Some {
                        assert(Seq::new(out_before.len(), |k: int| out_before[k]@) + (seq![
                            out@.last()@,
                        ] + rest_opt.unwrap()) =~= Seq::new(out@.len(), |k: int| out@[k]@)
                            + rest_opt.unwrap());
                    }
                }
            },
            None => {
                return None;
            },
        }
    }
    proof {
        assert(items@.skip(n as int) =~= Seq::<JsonValue>::empty());
        assert(Seq::new(out@.len(), |k: int| out@[k]@) + Seq::<CandidateView>::empty() =~= Seq::new(
            out@.len(),
            |k: int| out@[k]@,
        ));
    }
    Some(out)
}

/// Decodes the prompt feedback.
fn decode_feedback(v: &JsonValue) -> (r: Option<PromptFeedback>)
    ensures
        match r {
            Some(f) => spec_decode_feedback(*v) == Some(f@),
            None => spec_decode_feedback(*v) is None,
        },
{
    match v {
        JsonValue::Obj(_) => {},
        _ => {
            return None;
        },
    }
    let block_reason = match v.get("blockReason") {
        None => None,
        Some(JsonValue::Null) => None,
        Some(JsonValue::Str(s)) => match decode_block_reason(s.as_str()) {
            Some(b) => Some(b),
            None => {
                return None;
            },
        },
        Some(_) => {
            return None;
        },
    };
    match v.get("safetyRatings") {
        Some(JsonValue::Arr(items)) => match decode_ratings(items) {
            Some(safety_ratings) => {
                let f = PromptFeedback { block_reason, safety_ratings };
                proof {
                    assert(spec_decode_feedback(*v) matches Some(fv) && fv =~~= f@);
                }
                Some(f)
            },
            None => None,
        },
        _ => None,
    }
}

/// Decodes the usage accounting.
fn decode_usage(v: &JsonValue) -> (r: Option<UsageMetadata>)
    ensures
        match r {
            Some(u) => spec_decode_usage(*v) == Some(u),
            None => spec_decode_usage(*v) is None,
        },
{
    match v {
        JsonValue::Obj(_) => {},
        _ => {
            return None;
        },
    }
    let prompt_token_count = match get_opt_i32_field(v, "promptTokenCount") {
        Some(n) => n,
        None => {
            return None;
        },
    };
    let cached_content_token_count = match get_opt_i32_field(v, "cachedContentTokenCount") {
        Some(n) => n,
        None => {
            return None;
        },
    };
    let candidates_token_count = match get_opt_i32_field(v, "candidatesTokenCount") {
        Some(n) => n,
        None => {
            return None;
        },
    };
    let total_token_count = match get_opt_i32_field(v, "totalTokenCount") {
        Some(n) => n,
        None => {
            return None;
        },
    };
    Some(
        UsageMetadata {
            prompt_token_count,
            cached_content_token_count,
            candidates_token_count,
            total_token_count,
        },
    )
}

/// Decodes a whole response from its JSON value.
pub fn decode_response(v: &JsonValue) -> (r: Option<GenerateContentResponse>)
    ensures
        match r {
            Some(resp) => spec_decode_response(*v) == Some(resp@),
            None => spec_decode_response(*v) is None,
        },
{
    match v.get("candidates") {
        Some(JsonValue::Arr(items)) => match decode_candidates(items) {
            Some(candidates) => {
                let prompt_feedback = match v.get("promptFeedback") {
                    None => None,
                    Some(JsonValue::Null) => None,
                    Some(f) => match decode_feedback(f) {
                        Some(fv) => Some(fv),
                        None => {
                            return None;
                        },
                    },
                };
                let usage_metadata = match v.get("usageMetadata") {
                    None => None,
                    Some(JsonValue::Null) => None,
                    Some(u) => match decode_usage(u) {
                        Some(uv) => Some(uv),
                        None => {
                            return None;
                        },
                    },
                };
                let resp = GenerateContentResponse {
                    candidates,
                    prompt_feedback,
                    usage_metadata,
                };
                proof {
                    assert(spec_decode_response(*v) matches Some(rv) && rv =~~= resp@);
                }
                Some(resp)
            },
            None => None,
        },
        _ => None,
    }
}

/// An error body out of JSON: a required code in 32-bit range, and
/// required message and status strings.
pub open spec fn spec_decode_error(v: JsonValue) -> Option<ErrorView> {
    match (v.spec_get("code"@), v.spec_get("message"@), v.spec_get("status"@)) {
        (Some(JsonValue::Int(n)), Some(JsonValue::Str(m)), Some(JsonValue::Str(s))) => if
        -0x8000_0000 <= n <= 0x7fff_ffff {
            Some(ErrorView { code: n as i32, message: m@, status: s@ })
        } else {
            None
        },
        _ => None,
    }
}

/// Decodes an error body.
pub fn decode_error(v: &JsonValue) -> (r: Option<Error>)
    ensures
        match r {
            Some(e) => spec_decode_error(*v) == Some(e@),
            None => spec_decode_error(*v) is None,
        },
{
    match (v.get("code"), v.get("message"), v.get("status")) {
        (Some(JsonValue::Int(n)), Some(JsonValue::Str(m)), Some(JsonValue::Str(s))) => {
            if -0x8000_0000i64 <= *n && *n <= 0x7fff_ffffi64 {
                Some(Error { code: *n as i32, message: m.clone(), status: s.clone() })
            } else {
                None
            }
        },
        _ => None,
    }
}

} // verus!
