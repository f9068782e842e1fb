//! API and CLI specific errors.
use vstd::prelude::*;

verus! {

/// An error returned by the service itself: a structured envelope with a
/// status code and a human-readable cause, used only as an alternate
/// parse target for a response body.
#[derive(Debug, Clone, PartialEq)]
pub struct APIError {
    /// API returned status.
    pub status: String,
    /// Cause of failure.
    pub reason: String,
}

/// The model of an [`APIError`].
#[verifier::ext_equal]
pub struct APIErrorV {
    pub status: Seq<char>,
    pub reason: Seq<char>,
}

impl View for APIError {
    type V = APIErrorV;

    open spec fn view(&self) -> APIErrorV {
        APIErrorV { status: self.status@, reason: self.reason@ }
    }
}

impl Default for APIError {
    /// An empty status and reason.
    fn default() -> (r: APIError)
        ensures
            r@.status.len() == 0,
            r@.reason.len() == 0,
    {
        APIError { status: String::new(), reason: String::new() }
    }
}

impl APIError {
    /// The error as one human-readable message.
    pub fn message(&self) -> (r: String)
        ensures
            r@ == "Status: "@ + self.status@ + "\nReason: "@ + self.reason@,
    {
        let mut s = "Status: ".to_owned();
        s.append(self.status.as_str());
        s.append("\nReason: ");
        s.append(self.reason.as_str());
        s
    }
}

/// Everything that can go wrong in this client, by origin: a structured
/// service error, an undecodable response, a transport failure, or a
/// builder that could not assemble a valid value.
#[derive(Debug, Clone, PartialEq)]
pub enum HypothesisError {
    /// The service returned a structured error envelope; `suggestion` is
    /// a remediation hint for the call site.
    APIError { source: APIError, suggestion: String },
    /// The response body matched neither the expected success shape nor
    /// the error envelope: `raw_text` preserves the body for diagnosis
    /// and `detail` the underlying parse error.
    DecodeError { raw_text: String, detail: String },
    /// The HTTP collaborator itself failed; propagated unchanged.
    TransportError { detail: String },
    /// A builder could not materialize a valid value.
    BuilderError(String),
}

impl HypothesisError {
    /// The error as one human-readable message.
    pub fn message(&self) -> (r: String)
        ensures
            match self {
                HypothesisError::APIError { source, suggestion } => r@ == source@.status
                    + "\nReason: "@ + source@.reason + "\nSuggestion: "@ + suggestion@,
                HypothesisError::DecodeError { raw_text, detail } => r@
                    == "Could not decode response: "@ + detail@ + "\nRaw response: "@ + raw_text@,
                HypothesisError::TransportError { detail } => r@ == "Transport error: "@
                    + detail@,
                HypothesisError::BuilderError(detail) => r@ == "Builder error: "@ + detail@,
            },
    {
        match self {
            HypothesisError::APIError { source, suggestion } => {
                let mut s = source.status.clone();
                s.append("\nReason: ");
                s.append(source.reason.as_str());
                s.append("\nSuggestion: ");
                s.append(suggestion.as_str());
                s
            },
            HypothesisError::DecodeError { raw_text, detail } => {
                let mut s = "Could not decode response: ".to_owned();
                s.append(detail.as_str());
                s.append("\nRaw response: ");
                s.append(raw_text.as_str());
                s
            },
            HypothesisError::TransportError { detail } => {
                let mut s = "Transport error: ".to_owned();
                s.append(detail.as_str());
                s
            },
            HypothesisError::BuilderError(detail) => {
                let mut s = "Builder error: ".to_owned();
                s.append(detail.as_str());
                s
            },
        }
    }
}

/// Errors of a command-line layer around this client.
#[derive(Debug, Clone, PartialEq)]
pub enum CLIError {
    /// Thrown when client creation fails.
    AuthorizationError,
    /// Failed to parse a command-line argument into its corresponding
    /// type.
    ParseError { name: String, types: Vec<String> },
}

} // verus!
