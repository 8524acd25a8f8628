//! A completion model: a client and the name of the model that it asks for.
use crate::api;
use crate::api::CompletionError;
use crate::builder::AgentBuilder;
use crate::client::{Client, Method, RequestHead};
use crate::request::CompletionRequest;
use crate::response::CompletionResponse;
use vstd::prelude::*;
use vstd::std_specs::convert::FromSpecImpl;

verus! {

/// The error that a server gives in place of an answer.
#[derive(Debug, Clone, PartialEq)]
pub struct ApiErrorResponse {
    pub message: String,
}

impl From<ApiErrorResponse> for CompletionError {
    fn from(err: ApiErrorResponse) -> Self {
        CompletionError::ProviderError(err.message)
    }
}

impl FromSpecImpl<ApiErrorResponse> for CompletionError {
    open spec fn obeys_from_spec() -> bool {
        true
    }

    open spec fn from_spec(err: ApiErrorResponse) -> Self {
        CompletionError::ProviderError(err.message)
    }
}

/// What a server says when all went well on the way: an answer, or an error in its place.
#[derive(Debug)]
pub enum ApiResponse<T> {
    Answer(T),
    Error(ApiErrorResponse),
}

/// A reply to a completion request.
#[derive(Debug)]
pub enum Reply {
    /// The status speaks of success, as [`is_success_status`] tells.
    Success(ApiResponse<CompletionResponse>),
    /// The status does not, and this is the text of the reply.
    Failure(String),
}

/// A completion request as it is sent: the head of the HTTP request, its `Content-Type` header,
/// and what its body spells.
#[derive(Debug)]
pub struct OutgoingRequest<F> {
    pub head: RequestHead,
    pub content_type: &'static str,
    pub body: CompletionRequest<F>,
}

/// A completion model. `T` is the type of the HTTP client, which is carried through.
pub struct CompletionModel<T> {
    pub client: Client<T>,
    /// Name of the model (e.g.: qwen2.5)
    pub model: String,
}

impl<T: Clone> Clone for CompletionModel<T> {
    fn clone(&self) -> (copy: Self)
        ensures
            copy.model == self.model,
            copy.client@.base_url == self.client@.base_url,
            copy.client@.api_key == self.client@.api_key,
            cloned::<T>(self.client@.http_client, copy.client@.http_client),
    {
        CompletionModel { client: self.client.clone(), model: self.model.clone() }
    }
}

impl<T> CompletionModel<T> {
    /// The model `model` at the server of `client`.
    pub fn new(client: Client<T>, model: &str) -> (completion_model: Self)
        ensures
            completion_model.client == client,
            completion_model.model@ == model@,
    {
        CompletionModel { client, model: model.to_string() }
    }

    /// Starts to set up an agent on the model.
    pub fn into_agent_builder(self) -> (builder: AgentBuilder<Self>)
        ensures
            builder.model == self,
    {
        AgentBuilder::new(self)
    }

    /// Puts a request to the model into the server's form.
    pub fn build_request<F>(&self, request: api::CompletionRequest<F>) -> (built: Result<
        CompletionRequest<F>,
        CompletionError,
    >)
        ensures
            crate::request::is_server_request(self.model, request, built),
    {
        CompletionRequest::try_from((self.model.clone(), request))
    }

    /// The head of the HTTP request that carries a completion request.
    pub fn completion_head(&self) -> (head: RequestHead)
        ensures
            head.deep_view() == crate::client::request_head(
                self.client@,
                Method::Post,
                "/chat/completions"@,
            ),
    {
        self.client.post("/chat/completions")
    }

    /// Puts a request to the model into the form in which it is sent. Where it has none, nothing
    /// is to be sent.
    pub fn prepare_completion<F>(&self, request: api::CompletionRequest<F>) -> (prepared: Result<
        OutgoingRequest<F>,
        CompletionError,
    >)
        ensures
            match prepared {
                Ok(outgoing) => {
                    &&& outgoing.head.deep_view() == crate::client::request_head(
                        self.client@,
                        Method::Post,
                        "/chat/completions"@,
                    )
                    &&& outgoing.content_type@ == "application/json"@
                    &&& crate::request::is_server_request(
                        self.model,
                        request,
                        Ok::<CompletionRequest<F>, CompletionError>(outgoing.body),
                    )
                },
                Err(error) => crate::request::is_server_request(
                    self.model,
                    request,
                    Err::<CompletionRequest<F>, CompletionError>(error),
                ),
            },
    {
        match self.build_request(request) {
            Ok(body) => Ok(
                OutgoingRequest {
                    head: self.completion_head(),
                    content_type: completion_content_type(),
                    body,
                },
            ),
            Err(error) => Err(error),
        }
    }
}

/// The `Content-Type` header of the HTTP request that carries a completion request.
pub fn completion_content_type() -> (value: &'static str)
    ensures
        value@ == "application/json"@,
{
    "application/json"
}

/// Tells whether the status of a reply speaks of success.
pub fn is_success_status(status: u16) -> (success: bool)
    ensures
        success == (200 <= status < 300),
{
    200 <= status && status < 300
}

/// The count of tokens in a reply makes sense wherever it is looked at.
pub open spec fn is_consistent_reply(reply: Reply) -> bool {
    match reply {
        Reply::Success(ApiResponse::Answer(response)) => crate::response::has_consistent_usage(
            response,
        ),
        _ => true,
    }
}

impl Reply {
    /// Tells whether the count of tokens makes sense wherever it is looked at.
    pub fn is_consistent(&self) -> (consistent: bool)
        ensures
            consistent == is_consistent_reply(*self),
    {
        match self {
            Reply::Success(ApiResponse::Answer(response)) => response.has_consistent_usage(),
            _ => true,
        }
    }
}

/// Sorts a reply by its status. The text of one that speaks of success is read as what `decoded`
/// holds, and there is no reply where it could not be read; the text of any other one says why
/// the request failed.
pub fn sort_reply(
    status: u16,
    text: String,
    decoded: Option<ApiResponse<CompletionResponse>>,
) -> (reply: Option<Reply>)
    ensures
        !(200 <= status < 300) ==> reply == Some(Reply::Failure(text)),
        200 <= status < 300 ==> reply == (match decoded {
            Some(said) => Some(Reply::Success(said)),
            None => None,
        }),
{
    if is_success_status(status) {
        match decoded {
            Some(said) => Some(Reply::Success(said)),
            None => None,
        }
    } else {
        Some(Reply::Failure(text))
    }
}

/// Turns a reply to a completion request into the application's form, or into an error.
pub fn resolve_reply(reply: Reply) -> (resolved: Result<
    api::CompletionResponse<CompletionResponse>,
    CompletionError,
>)
    requires
        is_consistent_reply(reply),
    ensures
        match reply {
            Reply::Success(ApiResponse::Answer(response)) => crate::response::is_reply(
                response,
                resolved,
            ),
            Reply::Success(ApiResponse::Error(error)) => resolved is Err && resolved->Err_0
                == CompletionError::ProviderError(error.message),
            Reply::Failure(text) => resolved is Err && resolved->Err_0
                == CompletionError::ProviderError(text),
        },
{
    match reply {
        Reply::Success(ApiResponse::Answer(response)) => api::CompletionResponse::try_from(
            response,
        ),
        Reply::Success(ApiResponse::Error(error)) => Err(CompletionError::from(error)),
        Reply::Failure(text) => Err(CompletionError::ProviderError(text)),
    }
}

} // verus!
