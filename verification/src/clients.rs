//! What every provider client has in common: the settings it is built from,
//! the errors it reports, and the steps of one prompt exchange.

use crate::views::result_view;
use crate::text::{decimal, decimal_text, join};
use vstd::prelude::*;

pub mod chat;
pub mod deepseek;
pub mod gemini;
pub mod openai;

verus! {

/// The settings of one provider, as mathematical values. Every provider's
/// configuration type views as one of these.
pub struct ProviderSettings {
    pub api_url: Seq<char>,
    pub default_model: Seq<char>,
    pub timeout_secs: u64,
}

/// Why a prompt exchange failed.
#[derive(Debug, Clone, PartialEq, Eq)]
pub enum ClientError {
    /// The transport failed, or the provider answered outside the 2xx range.
    RequestFailed(String),
    /// The prompt could not be encoded, or the answer could not be decoded.
    SerializationFailed(String),
    /// Anything else; the cause is kept as text.
    UnknownError(String),
}

/// A `ClientError` as mathematical values.
pub enum ClientErrorView {
    RequestFailed(Seq<char>),
    SerializationFailed(Seq<char>),
    UnknownError(Seq<char>),
}

impl View for ClientError {
    type V = ClientErrorView;

    open spec fn view(&self) -> ClientErrorView {
        match self {
            ClientError::RequestFailed(detail) => ClientErrorView::RequestFailed(detail@),
            ClientError::SerializationFailed(detail) => ClientErrorView::SerializationFailed(
                detail@,
            ),
            ClientError::UnknownError(detail) => ClientErrorView::UnknownError(detail@),
        }
    }
}

impl ClientErrorView {
    /// The message of the error: what kind it is, then its detail.
    pub open spec fn message(self) -> Seq<char> {
        match self {
            ClientErrorView::RequestFailed(detail) => "Request failed: "@ + detail,
            ClientErrorView::SerializationFailed(detail) => "Serialization failed: "@ + detail,
            ClientErrorView::UnknownError(detail) => "Unhandled exception: "@ + detail,
        }
    }
}

impl ClientError {
    /// The message of the error, for people to read.
    pub fn message(&self) -> (text: String)
        ensures
            text@ == self@.message(),
    {
        match self {
            ClientError::RequestFailed(detail) => crate::text::join(
                "Request failed: ",
                detail.as_str(),
            ),
            ClientError::SerializationFailed(detail) => crate::text::join(
                "Serialization failed: ",
                detail.as_str(),
            ),
            ClientError::UnknownError(detail) => crate::text::join(
                "Unhandled exception: ",
                detail.as_str(),
            ),
        }
    }
}

/// What a caller wants completed.
#[derive(Debug, Clone, PartialEq, Eq)]
pub struct Prompt {
    pub text: String,
}

impl View for Prompt {
    type V = Seq<char>;

    open spec fn view(&self) -> Seq<char> {
        self.text@
    }
}

/// One HTTP POST: where it goes, the JSON it carries, and how long it may take.
#[derive(Debug, Clone, PartialEq, Eq)]
pub struct HttpRequest {
    pub url: String,
    pub body: String,
    pub timeout_secs: u64,
}

/// An `HttpRequest` as mathematical values.
pub struct HttpRequestView {
    pub url: Seq<char>,
    pub body: Seq<char>,
    pub timeout_secs: u64,
}

impl View for HttpRequest {
    type V = HttpRequestView;

    open spec fn view(&self) -> HttpRequestView {
        HttpRequestView { url: self.url@, body: self.body@, timeout_secs: self.timeout_secs }
    }
}

/// What the transport reports of a request that brought no response.
#[derive(Debug, Clone, PartialEq, Eq)]
pub struct TransportFailure {
    /// The request ran out of time.
    pub timeout: bool,
    /// No connection could be made.
    pub connect: bool,
    /// The request could not be sent.
    pub request: bool,
    /// The response broke off before its body was complete.
    pub body: bool,
    /// The redirects could not be followed.
    pub redirect: bool,
    /// The cause, as text.
    pub detail: String,
}

/// A `TransportFailure` as mathematical values.
pub struct TransportFailureView {
    pub timeout: bool,
    pub connect: bool,
    pub request: bool,
    pub body: bool,
    pub redirect: bool,
    pub detail: Seq<char>,
}

impl View for TransportFailure {
    type V = TransportFailureView;

    open spec fn view(&self) -> TransportFailureView {
        TransportFailureView {
            timeout: self.timeout,
            connect: self.connect,
            request: self.request,
            body: self.body,
            redirect: self.redirect,
            detail: self.detail@,
        }
    }
}

/// How the one network call of an exchange ended.
#[derive(Debug, Clone, PartialEq, Eq)]
pub enum TransportOutcome {
    /// The provider answered.
    Response { status: u16, body: Vec<u8> },
    /// No complete answer came.
    Failure(TransportFailure),
}

/// A `TransportOutcome` as mathematical values.
pub enum TransportOutcomeView {
    Response { status: u16, body: Seq<u8> },
    Failure(TransportFailureView),
}

impl View for TransportOutcome {
    type V = TransportOutcomeView;

    open spec fn view(&self) -> TransportOutcomeView {
        match self {
            TransportOutcome::Response { status, body } => TransportOutcomeView::Response {
                status: *status,
                body: body@,
            },
            TransportOutcome::Failure(failure) => TransportOutcomeView::Failure(failure@),
        }
    }
}

/// Whether a status code is in the 2xx range.
pub open spec fn is_success(status: u16) -> bool {
    200 <= status < 300
}

/// The error for an answer outside the 2xx range; it carries the status.
pub open spec fn status_error(status: u16) -> ClientErrorView {
    ClientErrorView::RequestFailed(
        "the provider answered with status "@ + decimal_text(status as nat),
    )
}

/// The error for a request that brought no response: a failed request where
/// the transport names one of its own kinds of failure, and an unknown error,
/// with the cause as text, where it names none.
pub open spec fn failure_error(failure: TransportFailureView) -> ClientErrorView {
    if failure.timeout || failure.connect || failure.request || failure.body || failure.redirect {
        ClientErrorView::RequestFailed(failure.detail)
    } else {
        ClientErrorView::UnknownError(failure.detail)
    }
}

/// What an exchange comes to once its response is in: the completion text
/// where the status is in the 2xx range and the body holds one, a
/// serialization failure where such a body holds none, and a failed request
/// for any other status, whatever the body.
pub open spec fn replied(status: u16, completion: Result<Seq<char>, Seq<char>>) -> Result<
    Seq<char>,
    ClientErrorView,
> {
    if is_success(status) {
        match completion {
            Ok(text) => Ok(text),
            Err(detail) => Err(ClientErrorView::SerializationFailed(detail)),
        }
    } else {
        Err(status_error(status))
    }
}

/// The request that carries a body to a provider, or the serialization
/// failure for a prompt that could not be encoded.
pub open spec fn addressed(
    api_url: Seq<char>,
    timeout_secs: u64,
    body: Result<Seq<char>, Seq<char>>,
) -> Result<HttpRequestView, ClientErrorView> {
    match body {
        Ok(text) => Ok(HttpRequestView { url: api_url, body: text, timeout_secs }),
        Err(detail) => Err(ClientErrorView::SerializationFailed(detail)),
    }
}

/// What every provider client can do. An exchange is one request and what is
/// made of the one outcome the transport reports for it; neither step depends
/// on which provider the client speaks to in any way but the two shapes below.
pub trait AiClient {
    /// The settings the client was built from.
    spec fn settings(&self) -> ProviderSettings;

    /// The body of the provider's request for a prompt, or why the prompt
    /// cannot be encoded.
    spec fn encoded(&self, prompt: Seq<char>) -> Result<Seq<char>, Seq<char>>;

    /// The completion text that a response body holds, with everything of the
    /// provider's around it taken off, or why the body cannot be decoded.
    spec fn completion(&self, body: Seq<u8>) -> Result<Seq<char>, Seq<char>>;

    /// Builds the one request of an exchange: a POST of the encoded prompt to
    /// the configured address, under the configured timeout.
    fn request(&self, prompt: &Prompt) -> (r: Result<HttpRequest, ClientError>)
        ensures
            result_view(r) == addressed(
                self.settings().api_url,
                self.settings().timeout_secs,
                self.encoded(prompt@),
            ),
    ;

    /// Turns the transport's outcome into the exchange's result.
    fn response(&self, outcome: &TransportOutcome) -> (r: Result<String, ClientError>)
        ensures
            result_view(r) == match outcome@ {
                TransportOutcomeView::Failure(failure) => Err(failure_error(failure)),
                TransportOutcomeView::Response { status, body } => replied(
                    status,
                    self.completion(body),
                ),
            },
    ;
}

/// Puts a request together from a client's configuration and the encoded prompt.
pub fn address(api_url: &str, timeout_secs: u64, body: Result<String, String>) -> (r: Result<
    HttpRequest,
    ClientError,
>)
    ensures
        result_view(r) == addressed(api_url@, timeout_secs, result_view(body)),
{
    match body {
        Ok(text) => Ok(HttpRequest { url: api_url.to_owned(), body: text, timeout_secs }),
        Err(detail) => Err(ClientError::SerializationFailed(detail)),
    }
}

/// The error for a request that brought no response.
pub fn classify_failure(failure: &TransportFailure) -> (error: ClientError)
    ensures
        error@ == failure_error(failure@),
{
    if failure.timeout || failure.connect || failure.request || failure.body || failure.redirect {
        ClientError::RequestFailed(failure.detail.clone())
    } else {
        ClientError::UnknownError(failure.detail.clone())
    }
}

/// The body that is to be decoded, where the outcome is a response in the 2xx
/// range; the error of the exchange for every other outcome.
pub fn accepted_body(outcome: &TransportOutcome) -> (r: Result<&[u8], ClientError>)
    ensures
        match outcome@ {
            TransportOutcomeView::Failure(failure) => r matches Err(error) && error@
                == failure_error(failure),
            TransportOutcomeView::Response { status, body } => if is_success(status) {
                r matches Ok(bytes) && bytes@ == body
            } else {
                r matches Err(error) && error@ == status_error(status)
            },
        },
{
    match outcome {
        TransportOutcome::Failure(failure) => Err(classify_failure(failure)),
        TransportOutcome::Response { status, body } => {
            if 200 <= *status && *status < 300 {
                Ok(body.as_slice())
            } else {
                let number = decimal(*status as u64);
                Err(
                    ClientError::RequestFailed(
                        join("the provider answered with status ", number.as_str()),
                    ),
                )
            }
        },
    }
}

/// The exchange's result for a body in the 2xx range, once it was decoded.
pub fn conclude(decoded: Result<String, String>) -> (r: Result<String, ClientError>)
    ensures
        result_view(r) == match result_view(decoded) {
            Ok(text) => Ok::<Seq<char>, ClientErrorView>(text),
            Err(detail) => Err(ClientErrorView::SerializationFailed(detail)),
        },
{
    match decoded {
        Ok(text) => Ok(text),
        Err(detail) => Err(ClientError::SerializationFailed(detail)),
    }
}

} // verus!
