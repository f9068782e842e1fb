//! Tests of the data model: builders, JSON encoding and decoding, and
//! the JSON writer held against a real JSON parser.
use hypothesis::annotations::{Selector, Target, TextPositionSelector, TextQuoteSelector};
use hypothesis::builders::{
    DocumentBuilder, InputAnnotationBuilder, SearchQueryBuilder, TargetBuilder,
};
use hypothesis::decode::{decode_annotation, decode_selector};
use hypothesis::encode::{input_annotation_json, selector_json};
use hypothesis::errors::{APIError, HypothesisError};
use hypothesis::json::{json_to_string, JsonValue};

fn quote_selector() -> Selector {
    Selector::new_quote("exact text", "prefix of text", "suffix of text")
}

#[test]
fn minimal_input_annotation_encodes_to_exactly_two_fields() {
    let input = InputAnnotationBuilder::default()
        .uri("https://www.example.com")
        .text("My new annotation")
        .build()
        .unwrap();
    let body = json_to_string(&input_annotation_json(&input));
    assert_eq!(
        body,
        "{\"uri\":\"https://www.example.com\",\"text\":\"My new annotation\"}"
    );
}

#[test]
fn unset_tags_are_absent_but_empty_tags_are_sent() {
    let unset = InputAnnotationBuilder::default().uri("u").build().unwrap();
    assert_eq!(json_to_string(&input_annotation_json(&unset)), "{\"uri\":\"u\"}");
    let empty = InputAnnotationBuilder::default()
        .uri("u")
        .tags(Vec::new())
        .build()
        .unwrap();
    assert_eq!(
        json_to_string(&input_annotation_json(&empty)),
        "{\"uri\":\"u\",\"tags\":[]}"
    );
}

#[test]
fn complex_input_annotation_encodes_target_and_tags() {
    let target = TargetBuilder::default()
        .source("https://www.example.com")
        .selector(vec![quote_selector()])
        .build()
        .unwrap();
    let input = InputAnnotationBuilder::default()
        .uri("https://www.example.com")
        .text("this is a comment")
        .target(target)
        .tags(vec!["tag1".to_string(), "tag2".to_string()])
        .build()
        .unwrap();
    let body = json_to_string(&input_annotation_json(&input));
    let expected = "{\"uri\":\"https://www.example.com\",\"text\":\"this is a comment\",\"tags\":[\"tag1\",\"tag2\"],\"target\":{\"source\":\"https://www.example.com\",\"selector\":[{\"type\":\"TextQuoteSelector\",\"exact\":\"exact text\",\"prefix\":\"prefix of text\",\"suffix\":\"suffix of text\"}]}}";
    assert_eq!(body, expected);
}

#[test]
fn writer_output_is_valid_json() {
    let input = InputAnnotationBuilder::default()
        .uri("https://www.example.com/a?b=c&d=e")
        .text("quotes \" and \\ and\nnewlines")
        .build()
        .unwrap();
    let body = json_to_string(&input_annotation_json(&input));
    let reparsed: serde_json::Value = serde_json::from_str(&body).unwrap();
    assert_eq!(
        reparsed["text"].as_str().unwrap(),
        "quotes \" and \\ and\nnewlines"
    );
    assert_eq!(
        reparsed["uri"].as_str().unwrap(),
        "https://www.example.com/a?b=c&d=e"
    );
}

#[test]
fn setters_are_last_write_wins() {
    let input = InputAnnotationBuilder::default()
        .uri("first")
        .uri("second")
        .build()
        .unwrap();
    assert_eq!(input.uri, "second");
}

#[test]
fn document_builder_requires_title_and_link() {
    let err = DocumentBuilder::default().build().unwrap_err();
    match err {
        HypothesisError::BuilderError(m) => assert_eq!(m, "`title` must be initialized"),
        other => panic!("unexpected error: {:?}", other),
    }
    let err = DocumentBuilder::default()
        .title(vec!["a title".to_string()])
        .build()
        .unwrap_err();
    match err {
        HypothesisError::BuilderError(m) => assert_eq!(m, "`link` must be initialized"),
        other => panic!("unexpected error: {:?}", other),
    }
    let doc = DocumentBuilder::default()
        .title(vec!["a title".to_string()])
        .link(Vec::new())
        .build()
        .unwrap();
    assert_eq!(doc.title, vec!["a title".to_string()]);
}

#[test]
fn target_builder_requires_source_and_selector() {
    let err = TargetBuilder::default().build().unwrap_err();
    match err {
        HypothesisError::BuilderError(m) => assert_eq!(m, "`source` must be initialized"),
        other => panic!("unexpected error: {:?}", other),
    }
    let t = TargetBuilder::default()
        .source("https://www.example.com")
        .selector(vec![quote_selector()])
        .build()
        .unwrap();
    assert_eq!(t.source, "https://www.example.com");
    assert_eq!(t.selector.len(), 1);
}

#[test]
fn search_query_builder_defaults() {
    let q = SearchQueryBuilder::default().build().unwrap();
    assert_eq!(q.limit, 20);
    assert_eq!(q.offset, 0);
    assert_eq!(q.search_after, "");
    assert!(q.tags.is_empty());
}

#[test]
fn quote_selector_round_trips() {
    let s = quote_selector();
    let decoded = decode_selector(&selector_json(&s)).unwrap();
    assert_eq!(decoded, s);
}

#[test]
fn position_selector_round_trips() {
    let s = Selector::TextPositionSelector(TextPositionSelector { start: 4, end: 7 });
    let decoded = decode_selector(&selector_json(&s)).unwrap();
    assert_eq!(decoded, s);
}

#[test]
fn range_selector_round_trips_the_opaque_bag() {
    let bag = vec![
        (
            "startContainer".to_string(),
            JsonValue::Str("/div[1]".to_string()),
        ),
        ("startOffset".to_string(), JsonValue::UInt(12)),
        ("endOffset".to_string(), JsonValue::UInt(29)),
    ];
    let s = Selector::RangeSelector(bag.clone());
    let decoded = decode_selector(&selector_json(&s)).unwrap();
    assert_eq!(decoded, Selector::RangeSelector(bag));
}

#[test]
fn inverted_position_selector_is_representable() {
    let s = Selector::TextPositionSelector(TextPositionSelector { start: 9, end: 3 });
    let decoded = decode_selector(&selector_json(&s)).unwrap();
    assert_eq!(
        decoded,
        Selector::TextPositionSelector(TextPositionSelector { start: 9, end: 3 })
    );
}

#[test]
fn selector_with_unknown_discriminant_fails_to_decode() {
    let v = JsonValue::Obj(vec![(
        "type".to_string(),
        JsonValue::Str("FragmentSelector".to_string()),
    )]);
    assert!(decode_selector(&v).is_none());
}

#[test]
fn quote_selector_missing_field_fails_to_decode() {
    let v = JsonValue::Obj(vec![
        (
            "type".to_string(),
            JsonValue::Str("TextQuoteSelector".to_string()),
        ),
        ("exact".to_string(), JsonValue::Str("e".to_string())),
    ]);
    assert!(decode_selector(&v).is_none());
}

#[test]
fn annotation_with_invalid_timestamp_fails_to_decode() {
    let good = annotation_body("ann1", "string");
    let parsed: serde_json::Value = serde_json::from_str(&good).unwrap();
    assert!(parsed["created"].is_string());
    let bad = good.replace("2019-01-03T19:46:09.334Z", "not a timestamp");
    let good_v = parse_library_json(&good);
    let bad_v = parse_library_json(&bad);
    assert!(decode_annotation(&good_v).is_some());
    assert!(decode_annotation(&bad_v).is_none());
}

#[test]
fn api_error_message_format() {
    let e = APIError {
        status: "404".to_string(),
        reason: "not found".to_string(),
    };
    assert_eq!(e.message(), "Status: 404\nReason: not found");
}

/// A full annotation resource as the service would return it.
fn annotation_body(id: &str, text: &str) -> String {
    let head = format!("{{\"id\":\"{}\",\"created\":\"2019-01-03T19:46:09.334Z\",\"updated\":\"2019-01-03T19:46:09.334Z\",\"user\":\"acct:x@y\",\"uri\":\"http://example.com\",\"text\":\"{}\",\"tags\":[],\"group\":\"__world__\",", id, text);
    let perms = "\"permissions\":{\"read\":[\"group:__world__\"],\"delete\":[\"acct:x@y\"],\"admin\":[\"acct:x@y\"],\"update\":[\"acct:x@y\"]},";
    let tail = format!("\"target\":[{{\"source\":\"http://example.com\"}}],\"links\":{{\"html\":\"https://example.com/a/{}\"}},\"hidden\":false,\"flagged\":false}}", id);
    format!("{}{}{}", head, perms, tail)
}

/// The library's JSON model of a serde_json tree, for direct decoder
/// tests.
fn library_json_of(v: &serde_json::Value) -> JsonValue {
    match v {
        serde_json::Value::Null => JsonValue::Null,
        serde_json::Value::Bool(b) => JsonValue::Bool(*b),
        serde_json::Value::Number(n) => JsonValue::UInt(n.as_u64().unwrap()),
        serde_json::Value::String(s) => JsonValue::Str(s.clone()),
        serde_json::Value::Array(items) => {
            JsonValue::Arr(items.iter().map(library_json_of).collect())
        }
        serde_json::Value::Object(map) => JsonValue::Obj(
            map.iter().map(|(k, v)| (k.clone(), library_json_of(v))).collect(),
        ),
    }
}

fn parse_library_json(body: &str) -> JsonValue {
    library_json_of(&serde_json::from_str(body).unwrap())
}

#[test]
fn annotation_decodes_with_all_fields() {
    let v = parse_library_json(&annotation_body("ann1", "string"));
    let a = decode_annotation(&v).unwrap();
    assert_eq!(a.id, "ann1");
    assert_eq!(a.text, "string");
    assert_eq!(a.uri, "http://example.com");
    assert_eq!(a.user.0, "acct:x@y");
    assert_eq!(a.group, "__world__");
    assert!(!a.hidden);
    assert!(!a.flagged);
    assert!(a.references.is_empty());
    assert!(a.user_info.is_none());
    assert_eq!(a.links, vec![("html".to_string(), "https://example.com/a/ann1".to_string())]);
    assert_eq!(a.target.len(), 1);
    assert_eq!(a.target[0].source, "http://example.com");
    assert!(a.target[0].selector.is_empty());
}

#[test]
fn annotation_missing_required_field_fails_to_decode() {
    let body = annotation_body("ann1", "string").replace("\"group\":\"__world__\",", "");
    let v = parse_library_json(&body);
    assert!(decode_annotation(&v).is_none());
}
