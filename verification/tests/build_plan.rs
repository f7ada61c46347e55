use ai_model_catalog::build::providers::{self, openrouter};
use ai_model_catalog::build::{
    is_success, placeholder, placeholders, rebuilt, reused, source, FetchError, HttpResponse,
    Place, Source, EMPTY_SNAPSHOT, PERSISTENT_DIRECTORY, REBUILD_TRIGGER,
};
use ai_model_catalog::providers::Provider;
use ai_model_catalog::{list_openrouter_model_ids, load_catalog};

#[test]
fn the_registry_lists_openrouter() {
    let specs = providers::all();
    assert_eq!(specs.len(), 1);
    assert_eq!(specs[0].name, "openrouter");
    assert_eq!(specs[0].file_name, "models_openrouter.json");
    assert_eq!(specs[0].provider, Provider::OpenRouter);
    let spec = openrouter::descriptor();
    assert_eq!(spec.name, openrouter::PROVIDER_NAME);
    assert_eq!(spec.file_name, openrouter::SNAPSHOT_FILE);
}

#[test]
fn names_of_the_environment_are_fixed() {
    assert_eq!(REBUILD_TRIGGER, "MODELS_REPOSITORY_BUILD");
    assert_eq!(PERSISTENT_DIRECTORY, "model_data");
    assert_eq!(EMPTY_SNAPSHOT, "{}");
    assert_eq!(providers::credential_variable(Provider::OpenRouter), "OPENROUTER_API_KEY");
    assert_eq!(openrouter::CATALOG_URL, "https://openrouter.ai/api/v1/models");
}

#[test]
fn the_request_carries_the_key_only_when_there_is_one() {
    let with_key = providers::request(Provider::OpenRouter, Some("sk-test".to_string()));
    assert_eq!(with_key.url, "https://openrouter.ai/api/v1/models");
    assert_eq!(with_key.bearer.as_deref(), Some("sk-test"));
    let without = openrouter::request(None);
    assert_eq!(without.url, "https://openrouter.ai/api/v1/models");
    assert!(without.bearer.is_none());
}

#[test]
fn success_is_the_2xx_range() {
    assert!(!is_success(0));
    assert!(!is_success(199));
    assert!(is_success(200));
    assert!(is_success(204));
    assert!(is_success(299));
    assert!(!is_success(300));
    assert!(!is_success(404));
    assert!(!is_success(500));
    assert!(!is_success(u16::MAX));
}

#[test]
fn the_trigger_decides_the_source() {
    assert_eq!(source(true), Source::Upstream);
    assert_eq!(source(false), Source::Persisted);
}

#[test]
fn every_provider_gets_an_empty_placeholder_in_the_output() {
    let specs = providers::all();
    let files = placeholders(&specs);
    assert_eq!(files.len(), specs.len());
    for (file, spec) in files.iter().zip(specs.iter()) {
        assert_eq!(file.place, Place::BuildOutput);
        assert_eq!(file.file_name, spec.file_name);
        assert_eq!(file.content, "{}");
    }
    assert!(placeholders(&Vec::new()).is_empty());
    let one = placeholder(&openrouter::descriptor());
    assert_eq!(one.place, Place::BuildOutput);
    assert_eq!(one.file_name, "models_openrouter.json");
    assert_eq!(one.content, "{}");
}

#[test]
fn without_trigger_and_without_file_the_output_is_the_empty_snapshot() {
    assert_eq!(source(false), Source::Persisted);
    let file = reused(&openrouter::descriptor(), None);
    assert_eq!(file.place, Place::BuildOutput);
    assert_eq!(file.file_name, "models_openrouter.json");
    assert_eq!(file.content, "{}");
    let catalog = load_catalog(&file.content);
    assert!(list_openrouter_model_ids(&catalog).is_empty());
}

#[test]
fn a_persisted_snapshot_is_written_to_the_output_unchanged() {
    let text = "{\n  \"a\": {\"id\": \"a\"}\n}\n";
    let file = reused(&openrouter::descriptor(), Some(text.to_string()));
    assert_eq!(file.place, Place::BuildOutput);
    assert_eq!(file.file_name, "models_openrouter.json");
    assert_eq!(file.content, text);
    let corrupt = reused(&openrouter::descriptor(), Some("not a snapshot".to_string()));
    assert_eq!(corrupt.content, "not a snapshot");
    assert!(list_openrouter_model_ids(&load_catalog(&corrupt.content)).is_empty());
}

#[test]
fn a_fetched_snapshot_is_written_twice() {
    let files = rebuilt(&openrouter::descriptor(), Ok("{\"k\": {}}".to_string())).expect("writes");
    assert_eq!(files.len(), 2);
    assert_eq!(files[0].place, Place::Persistent);
    assert_eq!(files[0].file_name, "models_openrouter.json");
    assert_eq!(files[0].content, "{\"k\": {}}");
    assert_eq!(files[1].place, Place::BuildOutput);
    assert_eq!(files[1].file_name, "models_openrouter.json");
    assert_eq!(files[1].content, "{\"k\": {}}");
}

#[test]
fn a_status_500_stops_the_build_with_the_name_of_the_provider() {
    let response = HttpResponse {
        code: 500,
        status: "500 Internal Server Error".to_string(),
        body: String::new(),
    };
    let fetched = providers::fetch(Provider::OpenRouter, &response);
    assert!(matches!(fetched, Err(FetchError::Status { .. })));
    let failure = rebuilt(&openrouter::descriptor(), fetched).expect_err("the build stops");
    assert!(failure.message.contains("openrouter"));
    assert_eq!(
        failure.message,
        "Failed to fetch openrouter: HTTP 500 Internal Server Error from https://openrouter.ai/api/v1/models"
    );
}

#[test]
fn every_error_has_its_message() {
    let transport = FetchError::Transport { detail: "connection refused".to_string() };
    assert_eq!(transport.message(), "connection refused");
    let status = FetchError::Status { status: "404 Not Found".to_string(), url: "u".to_string() };
    assert_eq!(status.message(), "HTTP 404 Not Found from u");
    let syntax = FetchError::Syntax { detail: "expected value at line 1 column 1".to_string() };
    assert_eq!(syntax.message(), "expected value at line 1 column 1");
    assert_eq!(FetchError::Shape.message(), "the answer does not hold a catalog");
    let render = FetchError::Render { detail: "cannot write".to_string() };
    assert_eq!(render.message(), "cannot write");
    let failure = rebuilt(&openrouter::descriptor(), Err(transport)).expect_err("the build stops");
    assert_eq!(failure.message, "Failed to fetch openrouter: connection refused");
}

#[test]
fn the_dispatch_reaches_the_provider() {
    let response = HttpResponse {
        code: 200,
        status: "200 OK".to_string(),
        body: "{\"data\":[{\"id\":\"m\"}]}".to_string(),
    };
    let by_provider = providers::fetch(Provider::OpenRouter, &response).expect("a snapshot");
    let direct = openrouter::fetch_models_map_json(&response).expect("a snapshot");
    assert_eq!(by_provider, direct);
    assert_eq!(list_openrouter_model_ids(&load_catalog(&direct)), vec!["m"]);
}
