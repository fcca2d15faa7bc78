use gem_rs::content::Context;
use gem_rs::content::PartData;
use gem_rs::content::Role;
use gem_rs::errors::Error;
use gem_rs::errors::GemError;
use gem_rs::json::parse_json;
use gem_rs::models::Models;
use gem_rs::response::decode_response;
use gem_rs::response::BlockReason;
use gem_rs::session::absorb_reply;
use gem_rs::session::interpret_response;
use gem_rs::session::request_url;
use gem_rs::session::stream_request_url;
use gem_rs::session::GemSessionBuilder;

#[test]
fn request_urls_name_the_model() {
    assert_eq!(
        request_url(&Models::Gemini15Flash),
        "https://generativelanguage.googleapis.com/v1beta/models/gemini-1.5-flash:generateContent"
    );
    assert_eq!(
        stream_request_url(&Models::Custom("my-model".to_string())),
        "https://generativelanguage.googleapis.com/v1beta/models/my-model:streamGenerateContent"
    );
}

#[test]
fn interpret_ok_response() {
    let body = r#"{"candidates":[{"content":{"parts":[{"text":"hi"}],"role":"model"}}]}"#;
    let response = interpret_response(true, body).unwrap();
    assert_eq!(response.get_results(), vec!["hi"]);
}

#[test]
fn interpret_empty_candidates() {
    let result = interpret_response(true, r#"{"candidates":[]}"#);
    assert!(matches!(result, Err(GemError::EmptyApiResponse)));
}

#[test]
fn interpret_blocked_with_feedback() {
    let body = r#"{"candidates":[{"finishReason":"SAFETY"}],
        "promptFeedback":{"blockReason":"SAFETY","safetyRatings":[]}}"#;
    match interpret_response(true, body) {
        Err(GemError::FeedbackError(reason)) => assert_eq!(reason, "Safety"),
        other => panic!("unexpected outcome: {:?}", other),
    }
}

#[test]
fn interpret_blocked_without_feedback() {
    let body = r#"{"candidates":[{"finishReason":"SAFETY"}]}"#;
    assert!(matches!(
        interpret_response(true, body),
        Err(GemError::AllCandidatesBlocked)
    ));
}

#[test]
fn interpret_error_status() {
    let body = r#"{"code":400,"message":"bad request","status":"INVALID_ARGUMENT"}"#;
    match interpret_response(false, body) {
        Err(GemError::GeminiAPIError(e)) => {
            assert_eq!(e.code, 400);
            assert_eq!(e.message, "bad request");
            assert_eq!(e.status, "INVALID_ARGUMENT");
            assert_eq!(e.to_string(), "Error 400: bad request (INVALID_ARGUMENT)");
        },
        other => panic!("unexpected outcome: {:?}", other),
    }
}

#[test]
fn interpret_malformed_body() {
    assert!(matches!(
        interpret_response(true, "not json"),
        Err(GemError::ParsingError(_))
    ));
    assert!(matches!(
        interpret_response(false, "not json"),
        Err(GemError::ParsingError(_))
    ));
}

#[test]
fn absorb_reply_appends_model_turn() {
    let body = r#"{"candidates":[{"content":{"parts":[{"text":"answer"}],"role":"model"}}]}"#;
    let value = parse_json(body.as_bytes()).unwrap();
    let response = decode_response(&value).unwrap();
    let mut context = Context::new();
    absorb_reply(&mut context, &response).unwrap();
    assert_eq!(context.len(), 1);
    let contents = context.get_contents();
    assert_eq!(contents[0].role, Some(Role::Model));
    match &contents[0].parts[0].data {
        PartData::Text { text } => assert_eq!(text, "answer"),
        _ => panic!("expected a text part"),
    }
}

#[test]
fn absorb_reply_without_text_is_an_error() {
    let body = r#"{"candidates":[{"content":{"parts":[
        {"file_data":{"mime_type":"image/png","file_uri":"uri://z"}}
    ],"role":"model"}}]}"#;
    let value = parse_json(body.as_bytes()).unwrap();
    let response = decode_response(&value).unwrap();
    let mut context = Context::new();
    assert!(matches!(
        absorb_reply(&mut context, &response),
        Err(GemError::EmptyApiResponse)
    ));
    assert!(context.is_empty());
}

#[test]
fn builder_accumulates_configuration() {
    let mut context = Context::new();
    context.push_message(Some(Role::User), "hello".to_string());
    let builder = GemSessionBuilder::new()
        .timeout(60)
        .connect_timeout(10)
        .model(Models::Gemini15Pro)
        .context(context)
        .api_key("SECRET-REDACTED".to_string());
    assert_eq!(builder.0.timeout_secs, 60);
    assert_eq!(builder.0.connect_timeout_secs, 10);
    assert_eq!(builder.0.model.to_string(), "gemini-1.5-pro");
    assert_eq!(builder.0.context.len(), 1);
    assert_eq!(builder.0.api_key.as_deref(), Some("SECRET-REDACTED"));
}

#[test]
fn block_reason_names() {
    assert_eq!(BlockReason::BlockReasonUnspecified.to_string(), "Unspecified");
    assert_eq!(BlockReason::Safety.to_string(), "Safety");
    assert_eq!(BlockReason::Other.to_string(), "Other");
    assert_eq!(BlockReason::Blocklist.to_string(), "Blocklist");
    assert_eq!(BlockReason::ProhibitedContent.to_string(), "Prohibited Content");
}

#[test]
fn error_rendering_is_exact() {
    let e = Error { code: -7, message: "boom".to_string(), status: "INTERNAL".to_string() };
    assert_eq!(e.to_string(), "Error -7: boom (INTERNAL)");
}
