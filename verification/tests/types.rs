use gem_rs::content::Blob;
use gem_rs::content::Context;
use gem_rs::content::FileData;
use gem_rs::content::PartData;
use gem_rs::content::Role;
use gem_rs::json::parse_json;
use gem_rs::response::decode_response;
use gem_rs::response::BlockReason;
use gem_rs::response::FinishReason;

#[test]
fn test_deserialize_generate_content_response() {
    let json_data = r#"
    {
        "candidates": [
            {
                "content": {
                    "parts": [
                        {
                            "text": "Sample text"
                        }
                    ],
                    "role": "model"
                },
                "finishReason": "STOP",
                "safetyRatings": [
                    {
                        "category": "violence",
                        "probability": "low",
                        "blocked": false
                    }
                ],
                "tokenCount": 10,
                "index": 0
            }
        ],
        "promptFeedback": {
            "blockReason": "SAFETY",
            "safetyRatings": [
                {
                    "category": "violence",
                    "probability": "low",
                    "blocked": false
                }
            ]
        },
        "usageMetadata": {
            "promptTokenCount": 5,
            "cachedContentTokenCount": 3,
            "candidatesTokenCount": 10,
            "totalTokenCount": 18
        }
    }
    "#;

    let value = parse_json(json_data.as_bytes()).unwrap();
    let response = decode_response(&value).unwrap();

    assert_eq!(response.get_candidates().len(), 1);
    let candidate = &response.get_candidates()[0];
    assert_eq!(candidate.content.as_ref().unwrap().parts.len(), 1);
    assert_eq!(
        candidate.content.as_ref().unwrap().role.as_ref().unwrap(),
        &Role::Model
    );
    assert_eq!(
        candidate.finish_reason.as_ref().unwrap(),
        &FinishReason::Stop
    );
    assert_eq!(candidate.safety_ratings.as_ref().unwrap().len(), 1);
    assert_eq!(candidate.token_count.unwrap(), 10);
    assert_eq!(candidate.index.unwrap(), 0);

    let prompt_feedback = response.get_prompt_feedback().unwrap();
    assert_eq!(
        prompt_feedback.block_reason.as_ref().unwrap(),
        &BlockReason::Safety
    );
    assert_eq!(prompt_feedback.safety_ratings.len(), 1);

    let usage_metadata = response.get_usage_metadata().unwrap();
    assert_eq!(usage_metadata.prompt_token_count.unwrap(), 5);
    assert_eq!(usage_metadata.cached_content_token_count.unwrap(), 3);
    assert_eq!(usage_metadata.candidates_token_count.unwrap(), 10);
    assert_eq!(usage_metadata.total_token_count.unwrap(), 18);
}

#[test]
fn get_results_collects_candidate_texts() {
    let json_data = r#"{"candidates":[
        {"content":{"parts":[{"text":"first"}],"role":"model"}},
        {"content":{"parts":[{"text":"second"}],"role":"model"}},
        {"finishReason":"SAFETY"}
    ]}"#;
    let value = parse_json(json_data.as_bytes()).unwrap();
    let response = decode_response(&value).unwrap();
    assert_eq!(response.get_results(), vec!["first", "second"]);
}

#[test]
fn decode_rejects_unknown_finish_reason() {
    let json_data = r#"{"candidates":[{"finishReason":"NOT_A_REASON"}]}"#;
    let value = parse_json(json_data.as_bytes()).unwrap();
    assert!(decode_response(&value).is_none());
}

#[test]
fn decode_rejects_missing_candidates() {
    let value = parse_json(b"{}").unwrap();
    assert!(decode_response(&value).is_none());
}

#[test]
fn blob_encodes_base64() {
    let blob = Blob::new("text/plain", b"hello");
    assert_eq!(blob.mime_type, "text/plain");
    assert_eq!(blob.data, "aGVsbG8=");
}

#[test]
fn blob_empty_data() {
    let blob = Blob::new("application/octet-stream", b"");
    assert_eq!(blob.data, "");
}

#[test]
fn context_push_and_inspect() {
    let mut context = Context::new();
    assert!(context.is_empty());
    context.push_message(Some(Role::User), "Hello".to_string());
    context.push_file(
        Some(Role::User),
        FileData { mime_type: "image/png".to_string(), file_uri: "uri://x".to_string() },
    );
    context.push_blob(Some(Role::User), Blob::new("text/plain", b"hi"));
    context.push_message_with_file(
        Some(Role::Model),
        "see file",
        FileData { mime_type: "image/png".to_string(), file_uri: "uri://y".to_string() },
    );
    context.push_message_with_blob(None, "see blob", Blob::new("text/plain", b"hi"));
    assert_eq!(context.len(), 5);
    assert!(!context.is_empty());

    let contents = context.get_contents();
    assert_eq!(contents[0].parts.len(), 1);
    match &contents[0].parts[0].data {
        PartData::Text { text } => assert_eq!(text, "Hello"),
        _ => panic!("expected a text part"),
    }
    assert_eq!(contents[3].parts.len(), 2);
    assert_eq!(contents[4].role, None);

    context.clear();
    assert!(context.is_empty());
    assert_eq!(context.len(), 0);
}

#[test]
fn content_get_text_finds_first_text_part() {
    let json_data = r#"{"candidates":[{"content":{"parts":[
        {"file_data":{"mime_type":"image/png","file_uri":"uri://z"}},
        {"text":"after the file"}
    ],"role":"model"}}]}"#;
    let value = parse_json(json_data.as_bytes()).unwrap();
    let response = decode_response(&value).unwrap();
    let text = response.get_candidates()[0]
        .content
        .as_ref()
        .unwrap()
        .get_text()
        .unwrap();
    assert_eq!(text, "after the file");
}
