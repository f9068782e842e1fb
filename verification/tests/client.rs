//! Tests of the operations layer: request shaping, query-string
//! encoding (held against the url crate's form encoding), and the
//! response classifier.
use hypothesis::builders::{InputAnnotationBuilder, SearchQueryBuilder};
use hypothesis::errors::HypothesisError;
use hypothesis::ops::{
    create_annotation_response, delete_annotation_response, fetch_annotation_response,
    moderation_response, search_annotations_response, update_annotation_response, Hypothesis,
    Method,
};
use hypothesis::query::{encode_query_string, search_query_pairs, search_query_string};
use hypothesis::UserAccountID;

fn api() -> Hypothesis {
    Hypothesis::new("https://api.example.com/api", "x", "y")
}

fn annotation_body(id: &str, text: &str, tags: &str) -> String {
    let head = format!("{{\"id\":\"{}\",\"created\":\"2019-01-03T19:46:09.334Z\",\"updated\":\"2019-01-03T19:47:10.000Z\",\"user\":\"acct:x@y\",\"uri\":\"http://example.com\",\"text\":\"{}\",\"tags\":{},\"group\":\"__world__\",", id, text, tags);
    let perms = "\"permissions\":{\"read\":[\"group:__world__\"],\"delete\":[\"acct:x@y\"],\"admin\":[\"acct:x@y\"],\"update\":[\"acct:x@y\"]},";
    let tail = format!("\"target\":[{{\"source\":\"http://example.com\"}}],\"links\":{{\"html\":\"https://example.com/a/{}\"}},\"hidden\":false,\"flagged\":false}}", id);
    format!("{}{}{}", head, perms, tail)
}

#[test]
fn new_client_builds_the_account_id() {
    let api = api();
    assert_eq!(api.user.0, "acct:x@y");
    assert_eq!(api.base_url, "https://api.example.com/api");
}

#[test]
fn create_request_shape() {
    let api = api();
    let input = InputAnnotationBuilder::default()
        .uri("http://example.com")
        .text("string")
        .group("__world__")
        .build()
        .unwrap();
    let req = api.create_annotation_request(&input);
    assert_eq!(req.method, Method::Post);
    assert_eq!(req.url, "https://api.example.com/api/annotations");
    assert_eq!(
        req.body.unwrap(),
        "{\"uri\":\"http://example.com\",\"text\":\"string\",\"group\":\"__world__\"}"
    );
}

#[test]
fn update_fetch_delete_request_shapes() {
    let api = api();
    let input = InputAnnotationBuilder::default().text("New String").build().unwrap();
    let req = api.update_annotation_request("ann1", &input);
    assert_eq!(req.method, Method::Patch);
    assert_eq!(req.url, "https://api.example.com/api/annotations/ann1");
    assert_eq!(req.body.unwrap(), "{\"text\":\"New String\"}");
    let req = api.fetch_annotation_request("ann1");
    assert_eq!(req.method, Method::Get);
    assert_eq!(req.url, "https://api.example.com/api/annotations/ann1");
    assert!(req.body.is_none());
    let req = api.delete_annotation_request("ann1");
    assert_eq!(req.method, Method::Delete);
    assert_eq!(req.url, "https://api.example.com/api/annotations/ann1");
}

#[test]
fn moderation_request_shapes() {
    let api = api();
    let req = api.flag_annotation_request("ann1");
    assert_eq!(req.method, Method::Put);
    assert_eq!(req.url, "https://api.example.com/api/annotations/ann1/flag");
    let req = api.hide_annotation_request("ann1");
    assert_eq!(req.method, Method::Put);
    assert_eq!(req.url, "https://api.example.com/api/annotations/ann1/hide");
    let req = api.show_annotation_request("ann1");
    assert_eq!(req.method, Method::Delete);
    assert_eq!(req.url, "https://api.example.com/api/annotations/ann1/hide");
}

#[test]
fn search_request_percent_encodes_and_omits_defaults() {
    let api = api();
    let q = SearchQueryBuilder::default()
        .user(&UserAccountID("acct:x@y".to_string()))
        .limit(5)
        .build()
        .unwrap();
    let req = api.search_annotations_request(&q);
    assert_eq!(req.method, Method::Get);
    assert_eq!(
        req.url,
        "https://api.example.com/api/search?user=acct%3Ax%40y&limit=5"
    );
    assert!(!req.url.contains("sort"));
    assert!(!req.url.contains("order"));
    assert!(!req.url.contains("offset"));
}

#[test]
fn default_query_encodes_to_nothing() {
    let q = SearchQueryBuilder::default().build().unwrap();
    assert_eq!(search_query_string(&q), "");
    assert!(search_query_pairs(&q).is_empty());
}

#[test]
fn query_renders_numbers_and_tags() {
    let q = SearchQueryBuilder::default()
        .limit(200)
        .offset(9800)
        .tags(vec!["tag1".to_string(), "tag2".to_string()])
        .build()
        .unwrap();
    assert_eq!(
        search_query_string(&q),
        "tags=%5Btag1%2Ctag2%5D&offset=9800&limit=200"
    );
}

#[test]
fn form_encoding_matches_the_url_crate() {
    let pairs = vec![
        ("q".to_string(), "a b+c:/?&=~\u{e9}\u{4e16}".to_string()),
        ("plain-key_*.".to_string(), "value".to_string()),
    ];
    let ours = encode_query_string(&pairs);
    let mut serializer = url::form_urlencoded::Serializer::new(String::new());
    for (k, v) in &pairs {
        serializer.append_pair(k, v);
    }
    assert_eq!(ours, serializer.finish());
}

#[test]
fn classifier_success_on_annotation_body() {
    let body = annotation_body("ann1", "string", "[]");
    let a = fetch_annotation_response(&body).unwrap();
    assert_eq!(a.id, "ann1");
    assert_eq!(a.text, "string");
}

#[test]
fn classifier_surfaces_api_error_with_status_and_reason() {
    let body = "{\"status\":\"failure\",\"reason\":\"id not found\"}";
    match fetch_annotation_response(body).unwrap_err() {
        HypothesisError::APIError { source, suggestion } => {
            assert_eq!(source.status, "failure");
            assert_eq!(source.reason, "id not found");
            assert_eq!(suggestion, "Make sure the given String exists");
        }
        other => panic!("unexpected error: {:?}", other),
    }
}

#[test]
fn classifier_preserves_unparsable_bytes() {
    let body = "this is { not json";
    match create_annotation_response(body).unwrap_err() {
        HypothesisError::DecodeError { raw_text, detail } => {
            assert_eq!(raw_text, body);
            assert!(!detail.is_empty());
        }
        other => panic!("unexpected error: {:?}", other),
    }
}

#[test]
fn classifier_decode_error_on_wrong_shape() {
    let body = "{\"unexpected\":\"shape\"}";
    match fetch_annotation_response(body).unwrap_err() {
        HypothesisError::DecodeError { raw_text, .. } => assert_eq!(raw_text, body),
        other => panic!("unexpected error: {:?}", other),
    }
}

#[test]
fn search_response_unwraps_rows() {
    let rows = format!(
        "[{},{}]",
        annotation_body("a1", "one", "[]"),
        annotation_body("a2", "two", "[]")
    );
    let body = format!("{{\"rows\":{},\"total\":2}}", rows);
    let anns = search_annotations_response(&body).unwrap();
    assert_eq!(anns.len(), 2);
    assert_eq!(anns[0].id, "a1");
    assert_eq!(anns[1].id, "a2");
}

#[test]
fn search_response_requires_the_envelope() {
    let body = format!("[{}]", annotation_body("a1", "one", "[]"));
    assert!(search_annotations_response(&body).is_err());
}

#[test]
fn delete_response_unwraps_the_flag() {
    assert!(delete_annotation_response("{\"id\":\"a1\",\"deleted\":true}").unwrap());
    assert!(!delete_annotation_response("{\"id\":\"a1\",\"deleted\":false}").unwrap());
    match delete_annotation_response("{\"status\":\"failure\",\"reason\":\"gone\"}").unwrap_err() {
        HypothesisError::APIError { suggestion, .. } => {
            assert_eq!(suggestion, "Make sure the given Annotation ID exists");
        }
        other => panic!("unexpected error: {:?}", other),
    }
}

#[test]
fn moderation_success_is_the_absence_of_an_error_envelope() {
    assert!(moderation_response("").is_ok());
    assert!(moderation_response("{}").is_ok());
    assert!(moderation_response(&annotation_body("a1", "one", "[]")).is_ok());
    match moderation_response("{\"status\":\"failure\",\"reason\":\"no such id\"}").unwrap_err() {
        HypothesisError::APIError { source, suggestion } => {
            assert_eq!(source.reason, "no such id");
            assert_eq!(suggestion, "Make sure the given Annotation ID exists");
        }
        other => panic!("unexpected error: {:?}", other),
    }
}

#[test]
fn create_update_delete_scenario() {
    let api = api();
    let input = InputAnnotationBuilder::default()
        .uri("http://example.com")
        .text("string")
        .group("__world__")
        .build()
        .unwrap();
    let req = api.create_annotation_request(&input);
    assert_eq!(req.method, Method::Post);
    let created = create_annotation_response(&annotation_body("ann1", "string", "[]")).unwrap();
    assert_eq!(created.text, "string");
    assert_eq!(created.uri, "http://example.com");

    let update = InputAnnotationBuilder::default()
        .text("New String")
        .tags(vec!["tag1".to_string(), "tag2".to_string()])
        .build()
        .unwrap();
    let req = api.update_annotation_request(&created.id, &update);
    assert_eq!(req.url, "https://api.example.com/api/annotations/ann1");
    assert_eq!(
        req.body.unwrap(),
        "{\"text\":\"New String\",\"tags\":[\"tag1\",\"tag2\"]}"
    );
    let updated = update_annotation_response(&annotation_body(
        "ann1",
        "New String",
        "[\"tag1\",\"tag2\"]",
    ))
    .unwrap();
    assert_eq!(updated.id, created.id);
    assert_eq!(updated.text, "New String");
    assert_eq!(updated.tags, vec!["tag1".to_string(), "tag2".to_string()]);

    let deleted = delete_annotation_response("{\"id\":\"ann1\",\"deleted\":true}").unwrap();
    assert!(deleted);
    let fetched = fetch_annotation_response("{\"status\":\"failure\",\"reason\":\"not found\"}");
    assert!(matches!(fetched, Err(HypothesisError::APIError { .. })));
}
