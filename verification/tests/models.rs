use gem_rs::models::Models;

#[test]
fn test_models_display() {
    let model = Models::Gemini15ProExp0827;
    assert_eq!(model.to_string(), "gemini-1.5-pro-exp-0827");

    let model = Models::Gemini15FlashExp0827;
    assert_eq!(model.to_string(), "gemini-1.5-flash-exp-0827");

    let model = Models::Gemini15Flash8bExp0827;
    assert_eq!(model.to_string(), "gemini-1.5-flash-8b-exp-0827");

    let model = Models::Gemini15Pro;
    assert_eq!(model.to_string(), "gemini-1.5-pro");

    let model = Models::Gemini15Flash;
    assert_eq!(model.to_string(), "gemini-1.5-flash");

    let model = Models::Gemini10Pro;
    assert_eq!(model.to_string(), "gemini-1.0-pro");

    let model = Models::Gemma2_2bIt;
    assert_eq!(model.to_string(), "gemma-2-2b-it");

    let model = Models::Gemma2_9bIt;
    assert_eq!(model.to_string(), "gemma-2-9b-it");

    let model = Models::Gemma2_27bIt;
    assert_eq!(model.to_string(), "gemma-2-27b-it");

    let model = Models::Custom("gemini-3-flash-001".to_string());
    assert_eq!(model.to_string(), "gemini-3-flash-001");
}

#[test]
fn custom_model_loses_quotes() {
    let model = Models::Custom("\"gemini-x\"".to_string());
    assert_eq!(model.to_string(), "gemini-x");
}

#[test]
fn default_model() {
    let model = Models::default();
    assert_eq!(model.to_string(), "gemini-2.0-flash");
}
