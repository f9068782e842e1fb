//! The resource operations, state-free: each operation is a pure mapping
//! from a validated value to a transport request descriptor, and from a
//! raw response body to a typed result or a tagged error. The HTTP
//! exchange itself is left to the caller's transport.
use vstd::prelude::*;

use crate::annotations::{Annotation, InputAnnotation, SearchQuery};
use crate::decode::{
    decode_annotation, decode_api_error, decode_deletion, decode_search, spec_decode_annotation,
    spec_decode_api_error, spec_decode_deletion, spec_decode_search,
};
use crate::encode::{input_annotation_json, spec_input_annotation_json};
use crate::errors::HypothesisError;
use crate::json::{json_parse, json_to_string, parse_json, spec_json_text, JsonValue};
use crate::query::{search_query_string, spec_query_string, spec_search_pairs};
use crate::UserAccountID;

verus! {

/// An HTTP verb, as far as this client needs them.
#[derive(Debug, Clone, Copy, PartialEq, Eq, Structural)]
pub enum Method {
    Get,
    Post,
    Patch,
    Put,
    Delete,
}

/// A transport request descriptor: everything the HTTP collaborator
/// needs to issue the call.
#[derive(Debug, Clone, PartialEq)]
pub struct HttpRequest {
    pub method: Method,
    pub url: String,
    /// The JSON body to send, if the operation has one.
    pub body: Option<String>,
}

/// The operations layer: the service's base URL, passed in at
/// construction, and the authenticated account.
#[derive(Debug, Clone, PartialEq)]
pub struct Hypothesis {
    /// The API root every path is appended to.
    pub base_url: String,
    /// The account operations act for, `acct:<username>@<authority>`.
    pub user: UserAccountID,
}

impl Hypothesis {
    /// A client for the given API root and account.
    pub fn new(base_url: &str, username: &str, authority: &str) -> (r: Hypothesis)
        ensures
            r.base_url@ == base_url@,
            r.user@ == "acct:"@ + username@ + "@"@ + authority@,
    {
        let mut user = "acct:".to_owned();
        user.append(username);
        user.append("@");
        user.append(authority);
        Hypothesis { base_url: base_url.to_owned(), user: UserAccountID(user) }
    }

    /// The request that posts a new annotation to the collection.
    pub fn create_annotation_request(&self, annotation: &InputAnnotation) -> (r: HttpRequest)
        ensures
            r.method == Method::Post,
            r.url@ == self.base_url@ + "/annotations"@,
            r.body matches Some(b) && b@ == spec_json_text(
                spec_input_annotation_json(annotation@),
            ),
    {
        let mut url = self.base_url.clone();
        url.append("/annotations");
        let body = json_to_string(&input_annotation_json(annotation));
        HttpRequest { method: Method::Post, url, body: Some(body) }
    }

    /// The request that patches an existing annotation; fields left at
    /// their defaults are absent from the body, so the server keeps
    /// their current values.
    pub fn update_annotation_request(&self, id: &str, annotation: &InputAnnotation) -> (r:
        HttpRequest)
        ensures
            r.method == Method::Patch,
            r.url@ == self.base_url@ + "/annotations/"@ + id@,
            r.body matches Some(b) && b@ == spec_json_text(
                spec_input_annotation_json(annotation@),
            ),
    {
        let mut url = self.base_url.clone();
        url.append("/annotations/");
        url.append(id);
        let body = json_to_string(&input_annotation_json(annotation));
        HttpRequest { method: Method::Patch, url, body: Some(body) }
    }

    /// The request that searches for annotations: the query's encoded
    /// pairs after the search path.
    pub fn search_annotations_request(&self, query: &SearchQuery) -> (r: HttpRequest)
        ensures
            r.method == Method::Get,
            r.url@ == self.base_url@ + "/search?"@ + spec_query_string(
                spec_search_pairs(query@),
            ),
            r.body is None,
    {
        let mut url = self.base_url.clone();
        url.append("/search?");
        let qs = search_query_string(query);
        url.append(qs.as_str());
        HttpRequest { method: Method::Get, url, body: None }
    }

    /// The request that fetches an annotation by ID.
    pub fn fetch_annotation_request(&self, id: &str) -> (r: HttpRequest)
        ensures
            r.method == Method::Get,
            r.url@ == self.base_url@ + "/annotations/"@ + id@,
            r.body is None,
    {
        let mut url = self.base_url.clone();
        url.append("/annotations/");
        url.append(id);
        HttpRequest { method: Method::Get, url, body: None }
    }

    /// The request that deletes an annotation by ID.
    pub fn delete_annotation_request(&self, id: &str) -> (r: HttpRequest)
        ensures
            r.method == Method::Delete,
            r.url@ == self.base_url@ + "/annotations/"@ + id@,
            r.body is None,
    {
        let mut url = self.base_url.clone();
        url.append("/annotations/");
        url.append(id);
        HttpRequest { method: Method::Delete, url, body: None }
    }

    /// The request that flags an annotation for moderation.
    pub fn flag_annotation_request(&self, id: &str) -> (r: HttpRequest)
        ensures
            r.method == Method::Put,
            r.url@ == self.base_url@ + "/annotations/"@ + id@ + "/flag"@,
            r.body is None,
    {
        let mut url = self.base_url.clone();
        url.append("/annotations/");
        url.append(id);
        url.append("/flag");
        HttpRequest { method: Method::Put, url, body: None }
    }

    /// The request that hides an annotation from public view.
    pub fn hide_annotation_request(&self, id: &str) -> (r: HttpRequest)
        ensures
            r.method == Method::Put,
            r.url@ == self.base_url@ + "/annotations/"@ + id@ + "/hide"@,
            r.body is None,
    {
        let mut url = self.base_url.clone();
        url.append("/annotations/");
        url.append(id);
        url.append("/hide");
        HttpRequest { method: Method::Put, url, body: None }
    }

    /// The request that shows (un-hides) an annotation.
    pub fn show_annotation_request(&self, id: &str) -> (r: HttpRequest)
        ensures
            r.method == Method::Delete,
            r.url@ == self.base_url@ + "/annotations/"@ + id@ + "/hide"@,
            r.body is None,
    {
        let mut url = self.base_url.clone();
        url.append("/annotations/");
        url.append(id);
        url.append("/hide");
        HttpRequest { method: Method::Delete, url, body: None }
    }
}

/// The shared failure half of the classifier: a body that parsed as JSON
/// but not as the success shape is a structured service error if the
/// error envelope fits, with the call site's remediation hint, and an
/// undecodable response otherwise, with the raw body preserved.
fn classify_failure(v: &JsonValue, body: &str, suggestion: &str) -> (r: HypothesisError)
    ensures
        match spec_decode_api_error(v@) {
            Some(e) => r matches HypothesisError::APIError { source, suggestion: sg }
                && source@ == e && sg@ == suggestion@,
            None => r matches HypothesisError::DecodeError { raw_text, detail: _ }
                && raw_text@ == body@,
        },
{
    match decode_api_error(v) {
        Some(e) => HypothesisError::APIError {
            source: e,
            suggestion: suggestion.to_owned(),
        },
        None => HypothesisError::DecodeError {
            raw_text: body.to_owned(),
            detail: "response matched neither the expected shape nor the error envelope"
                .to_owned(),
        },
    }
}

/// Classify a response body whose success shape is a single annotation:
/// the only success path is the body decoding as an annotation; a
/// structured error envelope is surfaced with the given hint; anything
/// else is an undecodable response carrying the raw body.
pub fn annotation_response(body: &str, suggestion: &str) -> (r: Result<
    Annotation,
    HypothesisError,
>)
    ensures
        match json_parse(body@) {
            None => r matches Err(HypothesisError::DecodeError { raw_text, detail: _ })
                && raw_text@ == body@,
            Some(v) => match spec_decode_annotation(v) {
                Some(a) => r matches Ok(out) && out@ == a,
                None => match spec_decode_api_error(v) {
                    Some(e) => r matches Err(
                        HypothesisError::APIError { source, suggestion: sg },
                    ) && source@ == e && sg@ == suggestion@,
                    None => r matches Err(HypothesisError::DecodeError { raw_text, detail: _ })
                        && raw_text@ == body@,
                },
            },
        },
{
    match parse_json(body) {
        Err(detail) => Err(HypothesisError::DecodeError { raw_text: body.to_owned(), detail }),
        Ok(v) => match decode_annotation(&v) {
            Some(a) => Ok(a),
            None => Err(classify_failure(&v, body, suggestion)),
        },
    }
}

/// Classify a create response. The returned annotation is the created
/// resource.
pub fn create_annotation_response(body: &str) -> (r: Result<Annotation, HypothesisError>)
    ensures
        match json_parse(body@) {
            None => r matches Err(HypothesisError::DecodeError { raw_text, detail: _ })
                && raw_text@ == body@,
            Some(v) => match spec_decode_annotation(v) {
                Some(a) => r matches Ok(out) && out@ == a,
                None => match spec_decode_api_error(v) {
                    Some(e) => r matches Err(
                        HypothesisError::APIError { source, suggestion: sg },
                    ) && source@ == e && sg@ == "Make sure input fields are valid"@,
                    None => r matches Err(HypothesisError::DecodeError { raw_text, detail: _ })
                        && raw_text@ == body@,
                },
            },
        },
{
    annotation_response(body, "Make sure input fields are valid")
}

/// Classify an update response. The returned annotation is the whole
/// refreshed resource.
pub fn update_annotation_response(body: &str) -> (r: Result<Annotation, HypothesisError>)
    ensures
        match json_parse(body@) {
            None => r matches Err(HypothesisError::DecodeError { raw_text, detail: _ })
                && raw_text@ == body@,
            Some(v) => match spec_decode_annotation(v) {
                Some(a) => r matches Ok(out) && out@ == a,
                None => match spec_decode_api_error(v) {
                    Some(e) => r matches Err(
                        HypothesisError::APIError { source, suggestion: sg },
                    ) && source@ == e && sg@ == "Make sure input fields are valid"@,
                    None => r matches Err(HypothesisError::DecodeError { raw_text, detail: _ })
                        && raw_text@ == body@,
                },
            },
        },
{
    annotation_response(body, "Make sure input fields are valid")
}

/// Classify a fetch response.
pub fn fetch_annotation_response(body: &str) -> (r: Result<Annotation, HypothesisError>)
    ensures
        match json_parse(body@) {
            None => r matches Err(HypothesisError::DecodeError { raw_text, detail: _ })
                && raw_text@ == body@,
            Some(v) => match spec_decode_annotation(v) {
                Some(a) => r matches Ok(out) && out@ == a,
                None => match spec_decode_api_error(v) {
                    Some(e) => r matches Err(
                        HypothesisError::APIError { source, suggestion: sg },
                    ) && source@ == e && sg@ == "Make sure the given String exists"@,
                    None => r matches Err(HypothesisError::DecodeError { raw_text, detail: _ })
                        && raw_text@ == body@,
                },
            },
        },
{
    annotation_response(body, "Make sure the given String exists")
}

/// Classify a search response: the rows of the `{rows, total}` envelope,
/// in order.
pub fn search_annotations_response(body: &str) -> (r: Result<Vec<Annotation>, HypothesisError>)
    ensures
        match json_parse(body@) {
            None => r matches Err(HypothesisError::DecodeError { raw_text, detail: _ })
                && raw_text@ == body@,
            Some(v) => match spec_decode_search(v) {
                Some(rows) => r matches Ok(out) && out.deep_view() == rows,
                None => match spec_decode_api_error(v) {
                    Some(e) => r matches Err(
                        HypothesisError::APIError { source, suggestion: sg },
                    ) && source@ == e && sg@ == "Make sure the query is valid"@,
                    None => r matches Err(HypothesisError::DecodeError { raw_text, detail: _ })
                        && raw_text@ == body@,
                },
            },
        },
{
    match parse_json(body) {
        Err(detail) => Err(HypothesisError::DecodeError { raw_text: body.to_owned(), detail }),
        Ok(v) => match decode_search(&v) {
            Some(rows) => Ok(rows),
            None => Err(classify_failure(&v, body, "Make sure the query is valid")),
        },
    }
}

/// Classify a delete response: the deleted flag of the `{id, deleted}`
/// envelope.
pub fn delete_annotation_response(body: &str) -> (r: Result<bool, HypothesisError>)
    ensures
        match json_parse(body@) {
            None => r matches Err(HypothesisError::DecodeError { raw_text, detail: _ })
                && raw_text@ == body@,
            Some(v) => match spec_decode_deletion(v) {
                Some(deleted) => r == Ok::<bool, HypothesisError>(deleted),
                None => match spec_decode_api_error(v) {
                    Some(e) => r matches Err(
                        HypothesisError::APIError { source, suggestion: sg },
                    ) && source@ == e && sg@ == "Make sure the given Annotation ID exists"@,
                    None => r matches Err(HypothesisError::DecodeError { raw_text, detail: _ })
                        && raw_text@ == body@,
                },
            },
        },
{
    match parse_json(body) {
        Err(detail) => Err(HypothesisError::DecodeError { raw_text: body.to_owned(), detail }),
        Ok(v) => match decode_deletion(&v) {
            Some(deleted) => Ok(deleted),
            None => Err(classify_failure(&v, body, "Make sure the given Annotation ID exists")),
        },
    }
}

/// Classify a moderation response (flag, hide, show), whose success
/// contract is inverted: the body is not parsed as a success payload; a
/// parseable error envelope is failure, and anything else — an empty
/// body, unparsable bytes, or non-error JSON — is success.
pub fn moderation_response(body: &str) -> (r: Result<(), HypothesisError>)
    ensures
        match json_parse(body@) {
            None => r is Ok,
            Some(v) => match spec_decode_api_error(v) {
                Some(e) => r matches Err(HypothesisError::APIError { source, suggestion: sg })
                    && source@ == e && sg@ == "Make sure the given Annotation ID exists"@,
                None => r is Ok,
            },
        },
{
    match parse_json(body) {
        Err(_) => Ok(()),
        Ok(v) => match decode_api_error(&v) {
            Some(e) => Err(HypothesisError::APIError {
                source: e,
                suggestion: "Make sure the given Annotation ID exists".to_owned(),
            }),
            None => Ok(()),
        },
    }
}

} // verus!
