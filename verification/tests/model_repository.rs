use ai_model_catalog::{get_openrouter_model, list_openrouter_model_ids, load_catalog};

const SNAPSHOT: &str = r#"{
  "google/gemini-2.5-flash": {
    "id": "google/gemini-2.5-flash",
    "canonical_slug": "google/gemini-2.5-flash",
    "name": "Google: Gemini 2.5 Flash",
    "created": 1750172488,
    "description": "A workhorse model",
    "context_length": 1048576,
    "architecture": {
      "input_modalities": ["file", "image", "text", "audio"],
      "output_modalities": ["text"],
      "tokenizer": "Gemini",
      "instruct_type": null
    },
    "pricing": {
      "prompt": "0.0000003",
      "completion": "0.0000025",
      "request": "0",
      "image": "0.001238",
      "web_search": "0",
      "internal_reasoning": "0",
      "input_cache_read": "0.000000075",
      "input_cache_write": "0.0000003833"
    },
    "top_provider": {
      "context_length": 1048576,
      "max_completion_tokens": 65535,
      "is_moderated": false
    },
    "per_request_limits": null,
    "supported_parameters": ["tools", "temperature"],
    "hugging_face_id": ""
  },
  "openai/gpt-4o": {
    "id": "openai/gpt-4o",
    "context_length": 128000
  }
}"#;

#[test]
fn test_list_openrouter_model_ids() {
    let catalog = load_catalog(SNAPSHOT);
    let model_ids: Vec<&str> = list_openrouter_model_ids(&catalog);
    assert!(!model_ids.is_empty(), "Model ID list should not be empty");
}

#[test]
fn test_get_openrouter_model() {
    let catalog = load_catalog(SNAPSHOT);
    let model = get_openrouter_model(&catalog, "google/gemini-2.5-flash").expect("Model not found");
    assert_eq!(model.id, "google/gemini-2.5-flash");
    assert!(
        model.context_length.unwrap_or(0) == 1_048_576,
        "Context length should be 1,048,576"
    );
}
