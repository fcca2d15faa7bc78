use gem_rs::content::Context;
use gem_rs::content::Role;
use gem_rs::json::json_to_string;
use gem_rs::json::JsonValue;
use gem_rs::request::request_body;
use gem_rs::settings::HarmBlockThreshold;
use gem_rs::settings::Settings;
use gem_rs::text::i32_to_string;
use gem_rs::text::str_eq;
use gem_rs::text::str_lex_cmp;
use gem_rs::text::u64_to_string;

#[test]
fn default_request_body_is_exact() {
    let mut context = Context::new();
    context.push_message(Some(Role::User), "Hi".to_string());
    let settings = Settings::new();
    let request = context.build(&settings);
    let body = request_body(&request);
    assert_eq!(
        body,
        "{\"contents\":[{\"parts\":[{\"text\":\"Hi\"}],\"role\":\"user\"}],\"safetySettings\":[{\"category\":\"HARM_CATEGORY_HATE_SPEECH\",\"threshold\":\"BLOCK_NONE\"},{\"category\":\"HARM_CATEGORY_SEXUALLY_EXPLICIT\",\"threshold\":\"BLOCK_NONE\"},{\"category\":\"HARM_CATEGORY_DANGEROUS_CONTENT\",\"threshold\":\"BLOCK_NONE\"},{\"category\":\"HARM_CATEGORY_HARASSMENT\",\"threshold\":\"BLOCK_NONE\"}],\"generationConfig\":{\"stopSequences\":null,\"responseMimeType\":null,\"maxOutputTokens\":8192,\"temperature\":1.0,\"topP\":null,\"topK\":null},\"systemInstruction\":null}"
    );
}

#[test]
fn configured_request_body_is_exact() {
    let mut context = Context::new();
    context.push_message(Some(Role::Model), "ok".to_string());
    let mut settings = Settings::new();
    settings.set_all_safety_settings(HarmBlockThreshold::BlockOnlyHigh);
    settings.set_max_output_tokens(100);
    settings.set_temperature(750);
    settings.set_system_instruction("be brief");
    let request = context.build(&settings);
    let body = request_body(&request);
    assert_eq!(
        body,
        "{\"contents\":[{\"parts\":[{\"text\":\"ok\"}],\"role\":\"model\"}],\"safetySettings\":[{\"category\":\"HARM_CATEGORY_HATE_SPEECH\",\"threshold\":\"BLOCK_ONLY_HIGH\"},{\"category\":\"HARM_CATEGORY_SEXUALLY_EXPLICIT\",\"threshold\":\"BLOCK_ONLY_HIGH\"},{\"category\":\"HARM_CATEGORY_DANGEROUS_CONTENT\",\"threshold\":\"BLOCK_ONLY_HIGH\"},{\"category\":\"HARM_CATEGORY_HARASSMENT\",\"threshold\":\"BLOCK_ONLY_HIGH\"}],\"generationConfig\":{\"stopSequences\":null,\"responseMimeType\":null,\"maxOutputTokens\":100,\"temperature\":0.75,\"topP\":null,\"topK\":null},\"systemInstruction\":{\"parts\":[{\"text\":\"be brief\"}]}}"
    );
}

#[test]
fn json_renderer_escapes_strings() {
    let value = JsonValue::Obj(vec![(
        "k\"ey\n".to_string(),
        JsonValue::Str("a\\b\t\u{1}".to_string()),
    )]);
    assert_eq!(json_to_string(&value), "{\"k\\\"ey\\n\":\"a\\\\b\\t\\u0001\"}");
}

#[test]
fn json_renderer_handles_every_shape() {
    let value = JsonValue::Arr(vec![
        JsonValue::Null,
        JsonValue::Bool(true),
        JsonValue::Bool(false),
        JsonValue::Int(-42),
        JsonValue::Milli(1000),
        JsonValue::Milli(50),
        JsonValue::Str(String::new()),
        JsonValue::Arr(Vec::new()),
        JsonValue::Obj(Vec::new()),
    ]);
    assert_eq!(
        json_to_string(&value),
        "[null,true,false,-42,1.0,0.05,\"\",[],{}]"
    );
}

#[test]
fn number_rendering_is_exact() {
    assert_eq!(u64_to_string(0), "0");
    assert_eq!(u64_to_string(90210), "90210");
    assert_eq!(i32_to_string(-123), "-123");
    assert_eq!(i32_to_string(i32::MIN), "-2147483648");
    assert_eq!(i32_to_string(i32::MAX), "2147483647");
}

#[test]
fn string_comparison_orders_lexicographically() {
    assert_eq!(str_lex_cmp("abc", "abd"), -1);
    assert_eq!(str_lex_cmp("abd", "abc"), 1);
    assert_eq!(str_lex_cmp("abc", "abc"), 0);
    assert_eq!(str_lex_cmp("ab", "abc"), -1);
    assert_eq!(str_lex_cmp("abc", "ab"), 1);
    assert!(str_eq("same", "same"));
    assert!(!str_eq("same", "sane"));
}
