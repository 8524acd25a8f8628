//! The client of a llama.cpp server.
use crate::builder::{EmbeddingsBuilder, ExtractorBuilder};
use crate::model::CompletionModel;
use crate::text;
use vstd::prelude::*;

verus! {

/// Where the server is found unless the application says otherwise.
pub const LLAMA_CPP_API_BASE_URL: &'static str = "http://localhost:8402/v1";

/// The model of a [`Client`] and of a [`ClientBuilder`].
pub struct ClientView<T> {
    pub base_url: Seq<char>,
    pub api_key: Option<Seq<char>>,
    pub http_client: T,
}

/// Sets up a [`Client`]. `T` is the type of the HTTP client, which is carried through.
pub struct ClientBuilder<'a, T> {
    api_key: Option<&'a str>,
    base_url: &'a str,
    http_client: T,
}

impl<'a, T> View for ClientBuilder<'a, T> {
    type V = ClientView<T>;

    closed spec fn view(&self) -> ClientView<T> {
        ClientView {
            base_url: self.base_url@,
            api_key: self.api_key.deep_view(),
            http_client: self.http_client,
        }
    }
}

impl<'a, T> ClientBuilder<'a, T> where T: Default {
    /// The usual server, no key, and a fresh HTTP client.
    pub fn new() -> (builder: Self)
        ensures
            builder@.base_url == LLAMA_CPP_API_BASE_URL@,
            builder@.api_key is None,
            call_ensures(T::default, (), builder@.http_client),
    {
        ClientBuilder {
            api_key: None,
            base_url: LLAMA_CPP_API_BASE_URL,
            http_client: Default::default(),
        }
    }
}

impl<'a, T> ClientBuilder<'a, T> {
    /// Sets where the server is found.
    pub fn base_url(self, base_url: &'a str) -> (builder: Self)
        ensures
            builder@ == (ClientView { base_url: base_url@, ..self@ }),
    {
        ClientBuilder { base_url, ..self }
    }

    /// Sets the key that the server is shown.
    pub fn api_key(self, api_key: &'a str) -> (builder: Self)
        ensures
            builder@ == (ClientView { api_key: Some(api_key@), ..self@ }),
    {
        ClientBuilder { api_key: Some(api_key), ..self }
    }

    /// Sets the HTTP client.
    pub fn with_client<U>(self, http_client: U) -> (builder: ClientBuilder<'a, U>)
        ensures
            builder@ == (ClientView {
                base_url: self@.base_url,
                api_key: self@.api_key,
                http_client,
            }),
    {
        ClientBuilder { api_key: self.api_key, base_url: self.base_url, http_client }
    }

    /// The client that was set up.
    pub fn build(self) -> (client: Client<T>)
        ensures
            client@ == self@,
    {
        let api_key = match self.api_key {
            Some(key) => Some(key.to_string()),
            None => None,
        };
        Client { base_url: self.base_url.to_string(), api_key, http_client: self.http_client }
    }
}

/// A client of a server. `T` is the type of the HTTP client, which is carried through.
pub struct Client<T> {
    base_url: String,
    api_key: Option<String>,
    http_client: T,
}

impl<T> View for Client<T> {
    type V = ClientView<T>;

    closed spec fn view(&self) -> ClientView<T> {
        ClientView {
            base_url: self.base_url@,
            api_key: self.api_key.deep_view(),
            http_client: self.http_client,
        }
    }
}

impl<T: Clone> Clone for Client<T> {
    fn clone(&self) -> (copy: Self)
        ensures
            copy@.base_url == self@.base_url,
            copy@.api_key == self@.api_key,
            cloned::<T>(self@.http_client, copy@.http_client),
    {
        Client {
            base_url: self.base_url.clone(),
            api_key: self.api_key.clone(),
            http_client: self.http_client.clone(),
        }
    }
}

/// What is shown of a client in a debug message: all of it but the key.
#[derive(Debug)]
pub struct ClientFields<'a, T> {
    pub base_url: &'a str,
    pub http_client: &'a T,
    pub api_key: Option<&'static str>,
}

/// How requests are made.
#[derive(Debug, Clone, Copy, PartialEq, Eq, Structural)]
pub enum Method {
    Get,
    Post,
}

/// The head of a request to the server.
#[derive(Debug, Clone, PartialEq)]
pub struct RequestHead {
    pub method: Method,
    pub url: String,
    /// The token of the `Authorization: Bearer` header, where there is to be one.
    pub bearer_token: Option<String>,
}

/// The model of a [`RequestHead`].
pub struct RequestHeadView {
    pub method: Method,
    pub url: Seq<char>,
    pub bearer_token: Option<Seq<char>>,
}

impl DeepView for RequestHead {
    type V = RequestHeadView;

    open spec fn deep_view(&self) -> RequestHeadView {
        RequestHeadView {
            method: self.method,
            url: self.url@,
            bearer_token: self.bearer_token.deep_view(),
        }
    }
}

/// The URL of `path` at a server: one slash stands between the two.
pub open spec fn endpoint(base_url: Seq<char>, path: Seq<char>) -> Seq<char> {
    base_url + "/"@ + text::without_leading_slashes(path)
}

/// The head of a request that a client makes for `path`.
pub open spec fn request_head<T>(
    client: ClientView<T>,
    method: Method,
    path: Seq<char>,
) -> RequestHeadView {
    RequestHeadView { method, url: endpoint(client.base_url, path), bearer_token: client.api_key }
}

/// What a provider is set up from.
#[derive(Debug, Clone, PartialEq)]
pub enum ProviderValue {
    Simple(String),
    ApiKeyWithOptionalKey(String, Option<String>),
    ApiKeyWithVersionAndHeader(String, String, String),
}

impl<T> Client<T> where T: Default {
    /// Starts to set up a client.
    pub fn builder<'a>() -> (builder: ClientBuilder<'a, T>)
        ensures
            builder@.base_url == LLAMA_CPP_API_BASE_URL@,
            builder@.api_key is None,
            call_ensures(T::default, (), builder@.http_client),
    {
        ClientBuilder::new()
    }

    /// A client of the usual server. For more control, use [`Client::builder`].
    pub fn new() -> (client: Self)
        ensures
            client@.base_url == LLAMA_CPP_API_BASE_URL@,
            client@.api_key is None,
            call_ensures(T::default, (), client@.http_client),
    {
        Self::builder().build()
    }

    /// A client of the server at `base_url`, with `api_key` if there is one. Both come from the
    /// environment, where the first must be set.
    pub fn from_vars(base_url: String, api_key: Option<String>) -> (client: Self)
        ensures
            client@.base_url == base_url@,
            client@.api_key == api_key.deep_view(),
            call_ensures(T::default, (), client@.http_client),
    {
        let mut builder = Self::builder().base_url(base_url.as_str());
        if let Some(key) = &api_key {
            builder = builder.api_key(key.as_str());
        }
        builder.build()
    }

    /// A client of the usual server, for a simple provider value.
    pub fn from_val(input: ProviderValue) -> (client: Self)
        requires
            input is Simple,
        ensures
            client@.base_url == LLAMA_CPP_API_BASE_URL@,
            client@.api_key is None,
            call_ensures(T::default, (), client@.http_client),
    {
        Self::new()
    }
}

impl<T> Client<T> {
    /// The HTTP client.
    pub fn http_client(&self) -> (http_client: &T)
        ensures
            *http_client == self@.http_client,
    {
        &self.http_client
    }

    /// What is shown of the client in a debug message.
    pub fn debug_fields(&self) -> (fields: ClientFields<'_, T>)
        ensures
            fields.base_url@ == self@.base_url,
            *fields.http_client == self@.http_client,
            fields.api_key.deep_view() == (match self@.api_key {
                Some(_) => Some("<REDACTED>"@),
                None => None,
            }),
    {
        let api_key: Option<&'static str> = match &self.api_key {
            Some(_) => Some("<REDACTED>"),
            None => None,
        };
        ClientFields { base_url: self.base_url.as_str(), http_client: &self.http_client, api_key }
    }

    fn head(&self, method: Method, path: &str) -> (head: RequestHead)
        ensures
            head.deep_view() == request_head(self@, method, path@),
    {
        let mut url = self.base_url.clone();
        url.append("/");
        url.append(text::trim_leading_slashes(path));
        RequestHead { method, url, bearer_token: self.api_key.clone() }
    }

    /// The head of a request that posts to `path`.
    pub fn post(&self, path: &str) -> (head: RequestHead)
        ensures
            head.deep_view() == request_head(self@, Method::Post, path@),
    {
        self.head(Method::Post, path)
    }

    /// The head of a request that gets `path`.
    pub fn get(&self, path: &str) -> (head: RequestHead)
        ensures
            head.deep_view() == request_head(self@, Method::Get, path@),
    {
        self.head(Method::Get, path)
    }

    /// The head of the request by which the server is verified.
    pub fn verification_head(&self) -> (head: RequestHead)
        ensures
            head.deep_view() == request_head(self@, Method::Get, "/models"@),
    {
        self.get("/models")
    }

    /// The embedding model, which is the same under every name.
    pub fn embedding_model(&self, _model: &str) -> (model: DummyEmbeddingModel)
        ensures
            model == DummyEmbeddingModel,
    {
        DummyEmbeddingModel::new()
    }

    /// The embedding model, which is the same for every number of dimensions.
    pub fn embedding_model_with_ndims(&self, _model: &str, _ndims: usize) -> (model:
        DummyEmbeddingModel)
        ensures
            model == DummyEmbeddingModel,
    {
        DummyEmbeddingModel::new()
    }

    /// Starts to set up embeddings of documents of type `D`.
    pub fn embeddings<D>(&self, _model: &str) -> (builder: EmbeddingsBuilder<
        DummyEmbeddingModel,
        D,
    >)
        ensures
            builder.model == DummyEmbeddingModel,
    {
        EmbeddingsBuilder::new(self.embedding_model(""))
    }
}

impl<T: Clone> Client<T> {
    /// The completion model with the given name.
    pub fn completion_model(&self, model: &str) -> (completion_model: CompletionModel<T>)
        ensures
            completion_model.model@ == model@,
            completion_model.client@.base_url == self@.base_url,
            completion_model.client@.api_key == self@.api_key,
            cloned::<T>(self@.http_client, completion_model.client@.http_client),
    {
        CompletionModel::new(self.clone(), model)
    }

    /// Starts to set up an extractor of values of type `U` on the completion model with the
    /// given name.
    pub fn extractor_completions_api<U>(&self, model: &str) -> (builder: ExtractorBuilder<
        CompletionModel<T>,
        U,
    >)
        ensures
            builder.model.model@ == model@,
            builder.model.client@.base_url == self@.base_url,
            builder.model.client@.api_key == self@.api_key,
            cloned::<T>(self@.http_client, builder.model.client@.http_client),
    {
        ExtractorBuilder::new(self.completion_model(model))
    }
}

/// Why a server could not be verified.
#[derive(Debug, Clone, PartialEq)]
pub enum VerifyError {
    InvalidAuthentication,
    ProviderError(String),
}

/// What the status of the reply to a verification says.
#[derive(Debug, Clone, Copy, PartialEq, Eq, Structural)]
pub enum VerifyStep {
    /// The server is fine.
    Accept,
    /// The server does not know the key.
    Unauthorized,
    /// The server failed: its reply says why.
    ReadBody,
}

/// The step that a status asks for: only two of them speak against the server.
pub open spec fn verify_step(status: u16) -> VerifyStep {
    if status == 401 {
        VerifyStep::Unauthorized
    } else if status == 500 {
        VerifyStep::ReadBody
    } else {
        VerifyStep::Accept
    }
}

/// Decides what the status of the reply to a verification says.
pub fn next_verify_step(status: u16) -> (step: VerifyStep)
    ensures
        step == verify_step(status),
{
    match status {
        200 => VerifyStep::Accept,
        401 => VerifyStep::Unauthorized,
        500 => VerifyStep::ReadBody,
        _ => VerifyStep::Accept,
    }
}

/// The outcome of a verification, given the status of the reply and its text.
pub fn verify_outcome(status: u16, text: String) -> (outcome: Result<(), VerifyError>)
    ensures
        outcome == (match verify_step(status) {
            VerifyStep::Accept => Ok(()),
            VerifyStep::Unauthorized => Err(VerifyError::InvalidAuthentication),
            VerifyStep::ReadBody => Err(VerifyError::ProviderError(text)),
        }),
{
    match next_verify_step(status) {
        VerifyStep::Accept => Ok(()),
        VerifyStep::Unauthorized => Err(VerifyError::InvalidAuthentication),
        VerifyStep::ReadBody => Err(VerifyError::ProviderError(text)),
    }
}

/// Why texts could not be embedded.
#[derive(Debug, Clone, PartialEq)]
pub enum EmbeddingError {
    ProviderError(String),
}

/// An embedding model that embeds nothing, as the server does not support embeddings.
#[derive(Debug, Clone, Copy, PartialEq, Eq, Structural)]
pub struct DummyEmbeddingModel;

impl DummyEmbeddingModel {
    /// The most documents that are embedded at a time.
    pub const MAX_DOCUMENTS: usize = 0;

    /// The embedding model.
    pub fn new() -> (model: Self)
        ensures
            model == DummyEmbeddingModel,
    {
        DummyEmbeddingModel
    }

    /// The number of dimensions of an embedding.
    pub fn ndims(&self) -> (dimensions: usize)
        ensures
            dimensions == 0,
    {
        0
    }

    /// Refuses to embed texts. `E` is the type of an embedding.
    pub fn embed_texts<E>(&self, _documents: Vec<String>) -> (embeddings: Result<
        Vec<E>,
        EmbeddingError,
    >)
        ensures
            embeddings matches Err(EmbeddingError::ProviderError(reason)) && reason@
                == "LlamaCpp does not support embeddings"@,
    {
        Err(EmbeddingError::ProviderError("LlamaCpp does not support embeddings".to_string()))
    }
}

} // verus!
