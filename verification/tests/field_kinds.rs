use ai_model_catalog::OpenRouterModel;

const SAMPLES: [&str; 24] = [
    "null",
    "true",
    "false",
    "0",
    "1",
    "-1",
    "-0",
    "1.0",
    "1e2",
    "0.5",
    "9223372036854775808",
    "18446744073709551615",
    "18446744073709551616",
    "\"\"",
    "\"x\"",
    "\"1\"",
    "[]",
    "[\"a\"]",
    "[\"a\", \"b\"]",
    "[\"a\", 1]",
    "[null]",
    "[[\"a\"]]",
    "{}",
    "{\"a\": 1}",
];

fn read(field: &str, value: &str) -> Option<OpenRouterModel> {
    OpenRouterModel::parse(&format!("{{\"{field}\": {value}}}")).ok()
}

fn read_in(part: &str, field: &str, value: &str) -> Option<OpenRouterModel> {
    OpenRouterModel::parse(&format!("{{\"{part}\": {{\"{field}\": {value}}}}}")).ok()
}

#[test]
fn a_text_field_takes_what_serde_takes_for_a_string() {
    for value in SAMPLES {
        let expected = serde_json::from_str::<String>(value).ok();
        assert_eq!(read("id", value).map(|m| m.id), expected, "id: {value}");
        assert_eq!(read("name", value).map(|m| m.name), expected, "name: {value}");
        assert_eq!(
            read("canonical_slug", value).map(|m| m.canonical_slug),
            expected,
            "canonical_slug: {value}"
        );
        assert_eq!(
            read("description", value).map(|m| m.description),
            expected,
            "description: {value}"
        );
        assert_eq!(
            read_in("architecture", "tokenizer", value)
                .map(|m| m.architecture.expect("architecture").tokenizer),
            expected,
            "tokenizer: {value}"
        );
    }
}

#[test]
fn an_optional_text_field_takes_what_serde_takes_for_an_optional_string() {
    for value in SAMPLES {
        let expected = serde_json::from_str::<Option<String>>(value).ok();
        assert_eq!(
            read_in("architecture", "instruct_type", value)
                .map(|m| m.architecture.expect("architecture").instruct_type),
            expected,
            "instruct_type: {value}"
        );
        assert_eq!(
            read_in("pricing", "prompt", value).map(|m| m.pricing.expect("pricing").prompt),
            expected,
            "prompt: {value}"
        );
        assert_eq!(
            read_in("pricing", "input_cache_write", value)
                .map(|m| m.pricing.expect("pricing").input_cache_write),
            expected,
            "input_cache_write: {value}"
        );
    }
}

#[test]
fn an_optional_unsigned_field_takes_what_serde_takes_for_an_optional_u64() {
    for value in SAMPLES {
        let expected = serde_json::from_str::<Option<u64>>(value).ok();
        assert_eq!(read("created", value).map(|m| m.created), expected, "created: {value}");
        assert_eq!(
            read("context_length", value).map(|m| m.context_length),
            expected,
            "context_length: {value}"
        );
        assert_eq!(
            read_in("top_provider", "max_completion_tokens", value)
                .map(|m| m.top_provider.expect("top provider").max_completion_tokens),
            expected,
            "max_completion_tokens: {value}"
        );
    }
}

#[test]
fn an_optional_flag_field_takes_what_serde_takes_for_an_optional_bool() {
    for value in SAMPLES {
        let expected = serde_json::from_str::<Option<bool>>(value).ok();
        assert_eq!(
            read_in("top_provider", "is_moderated", value)
                .map(|m| m.top_provider.expect("top provider").is_moderated),
            expected,
            "is_moderated: {value}"
        );
    }
}

#[test]
fn a_list_field_takes_what_serde_takes_for_a_list_of_strings() {
    for value in SAMPLES {
        let expected = serde_json::from_str::<Vec<String>>(value).ok();
        assert_eq!(
            read("supported_parameters", value).map(|m| m.supported_parameters),
            expected,
            "supported_parameters: {value}"
        );
        assert_eq!(
            read_in("architecture", "input_modalities", value)
                .map(|m| m.architecture.expect("architecture").input_modalities),
            expected,
            "input_modalities: {value}"
        );
        assert_eq!(
            read_in("architecture", "output_modalities", value)
                .map(|m| m.architecture.expect("architecture").output_modalities),
            expected,
            "output_modalities: {value}"
        );
    }
}

#[test]
fn a_free_form_field_takes_what_serde_takes_for_an_optional_value() {
    for value in SAMPLES {
        let expected = serde_json::from_str::<Option<serde_json::Value>>(value)
            .expect("any JSON")
            .map(|v| serde_json::to_string_pretty(&v).expect("written"));
        let limits = read("per_request_limits", value).expect("a record").per_request_limits;
        assert_eq!(
            limits.map(|j| j.to_pretty_text().expect("written")),
            expected,
            "per_request_limits: {value}"
        );
    }
}

#[test]
fn a_part_is_absent_for_null_and_malformed_for_what_is_neither_null_nor_object() {
    for value in SAMPLES {
        for part in ["architecture", "pricing", "top_provider"] {
            let model = read(part, value);
            match value {
                "null" => {
                    let model = model.expect("a record");
                    assert!(model.architecture.is_none());
                    assert!(model.pricing.is_none());
                    assert!(model.top_provider.is_none());
                }
                "{}" | "{\"a\": 1}" => assert!(model.is_some(), "{part}: {value}"),
                _ => assert!(model.is_none(), "{part}: {value}"),
            }
        }
    }
}
