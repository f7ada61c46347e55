use ai_model_catalog::build::providers::openrouter::{
    decode_response, encode_snapshot, fetch_models_map_json, normalize, snapshot_from_response,
    FetchedModel, CATALOG_URL,
};
use ai_model_catalog::build::{FetchError, HttpResponse};
use ai_model_catalog::json::Json;
use ai_model_catalog::{get_openrouter_model, list_openrouter_model_ids, load_catalog};

fn ok(body: &str) -> HttpResponse {
    HttpResponse { code: 200, status: "200 OK".to_string(), body: body.to_string() }
}

fn records(body: &str) -> Vec<FetchedModel> {
    decode_response(&Json::parse(body).expect("valid JSON")).expect("a list of records")
}

#[test]
fn one_record_becomes_a_snapshot_with_one_key() {
    let body = r#"{"data":[{"id":"acme/foo","context_length":1000}]}"#;
    let text = fetch_models_map_json(&ok(body)).expect("a snapshot");
    let expected = r#"{
  "acme/foo": {
    "id": "acme/foo",
    "canonical_slug": "",
    "name": "",
    "created": null,
    "description": "",
    "context_length": 1000,
    "architecture": null,
    "pricing": null,
    "top_provider": null,
    "per_request_limits": null,
    "supported_parameters": []
  }
}"#;
    assert_eq!(text, expected);

    let catalog = load_catalog(&text);
    assert_eq!(list_openrouter_model_ids(&catalog), vec!["acme/foo"]);
    let model = get_openrouter_model(&catalog, "acme/foo").expect("stored");
    assert_eq!(model.id, "acme/foo");
    assert_eq!(model.context_length, Some(1000));
    assert_eq!(model.canonical_slug, "");
    assert_eq!(model.name, "");
    assert_eq!(model.created, None);
    assert_eq!(model.description, "");
    assert!(model.architecture.is_none());
    assert!(model.pricing.is_none());
    assert!(model.top_provider.is_none());
    assert!(model.per_request_limits.is_none());
    assert!(model.supported_parameters.is_empty());
}

#[test]
fn of_two_records_with_one_id_the_later_is_kept() {
    let body = r#"{"data":[
        {"id":"a","name":"first","context_length":1,"description":"old"},
        {"id":"b","name":"other"},
        {"id":"a","name":"second"}
    ]}"#;
    let snapshot = normalize(records(body));
    assert_eq!(snapshot.len(), 2);
    assert_eq!(snapshot.key_at(0), "a");
    assert_eq!(snapshot.key_at(1), "b");
    let kept = &snapshot.record_at(0).model;
    assert_eq!(kept.name, "second");
    assert_eq!(kept.context_length, None);
    assert_eq!(kept.description, "");

    let catalog = load_catalog(&fetch_models_map_json(&ok(body)).expect("a snapshot"));
    assert_eq!(list_openrouter_model_ids(&catalog), vec!["a", "b"]);
    let model = get_openrouter_model(&catalog, "a").expect("stored");
    assert_eq!(model.name, "second");
    assert_eq!(model.context_length, None);
    assert_eq!(model.description, "");
}

#[test]
fn ids_are_keys_as_they_stand() {
    let body = r#"{"data":[{"id":"Acme/Foo"},{"id":"openrouter/auto"},{"name":"no id"}]}"#;
    let snapshot = normalize(records(body));
    assert_eq!(snapshot.len(), 3);
    assert_eq!(snapshot.key_at(0), "Acme/Foo");
    assert_eq!(snapshot.key_at(1), "openrouter/auto");
    assert_eq!(snapshot.key_at(2), "");
    assert_eq!(snapshot.record_at(2).model.name, "no id");
}

#[test]
fn every_record_is_kept_even_if_empty() {
    let snapshot = normalize(records(r#"{"data":[{"id":"x"},{"id":"y"},{"id":"z"}]}"#));
    assert_eq!(snapshot.len(), 3);
    assert_eq!(normalize(Vec::new()).len(), 0);
}

#[test]
fn members_of_other_names_are_carried_into_the_snapshot() {
    let body = r#"{"data":[{"hugging_face_id":"acme/foo-hf","id":"acme/foo","default_parameters":{"temperature":0.7},"name":"Foo"}],"meta":{"count":1}}"#;
    let fetched = records(body);
    assert_eq!(fetched.len(), 1);
    let names: Vec<&str> = fetched[0].extra.iter().map(|m| m.name.as_str()).collect();
    assert_eq!(names, vec!["hugging_face_id", "default_parameters"]);

    let text = fetch_models_map_json(&ok(body)).expect("a snapshot");
    let expected = r#"{
  "acme/foo": {
    "id": "acme/foo",
    "canonical_slug": "",
    "name": "Foo",
    "created": null,
    "description": "",
    "context_length": null,
    "architecture": null,
    "pricing": null,
    "top_provider": null,
    "per_request_limits": null,
    "supported_parameters": [],
    "hugging_face_id": "acme/foo-hf",
    "default_parameters": {
      "temperature": 0.7
    }
  }
}"#;
    assert_eq!(text, expected);
    let catalog = load_catalog(&text);
    assert_eq!(get_openrouter_model(&catalog, "acme/foo").expect("stored").name, "Foo");
}

#[test]
fn an_answer_without_records_is_the_empty_snapshot() {
    assert_eq!(fetch_models_map_json(&ok("{}")).expect("a snapshot"), "{}");
    assert_eq!(fetch_models_map_json(&ok(r#"{"data":[]}"#)).expect("a snapshot"), "{}");
    assert_eq!(fetch_models_map_json(&ok(r#"{"other":1}"#)).expect("a snapshot"), "{}");
}

#[test]
fn a_status_outside_2xx_is_an_error() {
    for (code, status) in [
        (500u16, "500 Internal Server Error"),
        (404, "404 Not Found"),
        (301, "301 Moved Permanently"),
        (300, "300 Multiple Choices"),
        (199, "199 <unknown status code>"),
        (100, "100 Continue"),
    ] {
        let response = HttpResponse {
            code,
            status: status.to_string(),
            body: r#"{"data":[]}"#.to_string(),
        };
        match fetch_models_map_json(&response) {
            Err(FetchError::Status { status: s, url }) => {
                assert_eq!(s, status);
                assert_eq!(url, CATALOG_URL);
            }
            other => panic!("expected a status error for {code}, got {:?}", other),
        }
    }
    for code in [200u16, 201, 204, 299] {
        let response =
            HttpResponse { code, status: code.to_string(), body: r#"{"data":[]}"#.to_string() };
        assert_eq!(fetch_models_map_json(&response).expect("a snapshot"), "{}");
    }
}

#[test]
fn a_body_that_is_no_json_is_a_syntax_error() {
    for body in ["", "<html>", "{\"data\": [", "{\"data\": []} x"] {
        match fetch_models_map_json(&ok(body)) {
            Err(FetchError::Syntax { detail }) => assert!(!detail.is_empty()),
            other => panic!("expected a syntax error for {body:?}, got {:?}", other),
        }
    }
}

#[test]
fn json_that_holds_no_list_of_records_is_a_shape_error() {
    for body in [
        "[]",
        "null",
        "\"data\"",
        r#"{"data": null}"#,
        r#"{"data": {}}"#,
        r#"{"data": "none"}"#,
        r#"{"data": [1]}"#,
        r#"{"data": [null]}"#,
        r#"{"data": [[]]}"#,
        r#"{"data": [{"id": "ok"}, "bad"]}"#,
        r#"{"data": [{"id": 5}]}"#,
        r#"{"data": [{"id": "ok"}, {"context_length": -1}]}"#,
    ] {
        assert!(
            matches!(fetch_models_map_json(&ok(body)), Err(FetchError::Shape)),
            "for {body:?}"
        );
        let json = Json::parse(body).expect("valid JSON");
        assert!(snapshot_from_response(&json).is_none(), "for {body:?}");
        assert!(decode_response(&json).is_none(), "for {body:?}");
    }
}

#[test]
fn a_fetched_record_is_read_from_an_object_only() {
    assert!(FetchedModel::from_json(&Json::Array(vec![])).is_none());
    assert!(FetchedModel::from_json(&Json::Null).is_none());
    let record = FetchedModel::from_json(&Json::parse(r#"{"x": 1}"#).expect("valid JSON"))
        .expect("a record");
    assert_eq!(record.model.id, "");
    assert_eq!(record.extra.len(), 1);
    assert_eq!(
        record.to_json().to_pretty_text().expect("written"),
        "{\n  \"id\": \"\",\n  \"canonical_slug\": \"\",\n  \"name\": \"\",\n  \"created\": null,\n  \"description\": \"\",\n  \"context_length\": null,\n  \"architecture\": null,\n  \"pricing\": null,\n  \"top_provider\": null,\n  \"per_request_limits\": null,\n  \"supported_parameters\": [],\n  \"x\": 1\n}"
    );
}

#[test]
fn a_snapshot_written_and_read_again_has_the_same_keys_and_records() {
    let body = r#"{"data":[
        {"id":"a/one","canonical_slug":"a/one-1","name":"One","created":1,"description":"d",
         "context_length":10,"architecture":{"input_modalities":["text","image"],"output_modalities":["text"],"tokenizer":"t","instruct_type":"i"},
         "pricing":{"prompt":"0.1","completion":"0.2","image":null},
         "top_provider":{"context_length":10,"max_completion_tokens":5,"is_moderated":true},
         "per_request_limits":{"k":[1,2.5,"v",null,false]},
         "supported_parameters":["tools","seed"],"extra_member":{"deep":[1]}},
        {"id":"b/two"}
    ]}"#;
    let snapshot = normalize(records(body));
    let text = encode_snapshot(&snapshot).to_pretty_text().expect("written");
    let catalog = load_catalog(&text);
    assert_eq!(list_openrouter_model_ids(&catalog), vec!["a/one", "b/two"]);
    for i in 0..snapshot.len() {
        let written = &snapshot.record_at(i).model;
        let read = get_openrouter_model(&catalog, snapshot.key_at(i)).expect("stored");
        assert_eq!(read.id, written.id);
        assert_eq!(read.canonical_slug, written.canonical_slug);
        assert_eq!(read.name, written.name);
        assert_eq!(read.created, written.created);
        assert_eq!(read.description, written.description);
        assert_eq!(read.context_length, written.context_length);
        assert_eq!(read.top_provider, written.top_provider);
        assert_eq!(read.supported_parameters, written.supported_parameters);
        assert_eq!(
            read.to_json().to_pretty_text().expect("written"),
            written.to_json().to_pretty_text().expect("written")
        );
    }
    let one = get_openrouter_model(&catalog, "a/one").expect("stored");
    assert_eq!(one.pricing.as_ref().expect("pricing").completion.as_deref(), Some("0.2"));
    assert_eq!(one.architecture.as_ref().expect("architecture").input_modalities, vec!["text", "image"]);
}
