//! The client.
use llama_cpp::builder::{EmbeddingsBuilder, ExtractorBuilder};
use llama_cpp::client::{
    next_verify_step, verify_outcome, EmbeddingError, Method, ProviderValue, VerifyError,
    VerifyStep,
};
use llama_cpp::{Client, ClientBuilder, CompletionModel, DummyEmbeddingModel};

fn keyed() -> Client<u8> {
    Client::builder().base_url("http://host/v1").api_key("k").build()
}

#[test]
fn client_defaults_to_the_local_server() {
    let client: Client<u8> = Client::new();
    let head = client.post("/chat/completions");
    assert_eq!(head.method, Method::Post);
    assert_eq!(head.url, "http://localhost:8402/v1/chat/completions");
    assert_eq!(head.bearer_token, None);
    assert_eq!(*client.http_client(), 0);
}

#[test]
fn builder_sets_up_the_client() {
    let client = ClientBuilder::<u8>::new().api_key("k").base_url("http://host/v1").build();
    let same = keyed();
    assert_eq!(client.get("models"), same.get("models"));
    let head = same.get("models");
    assert_eq!(head.method, Method::Get);
    assert_eq!(head.url, "http://host/v1/models");
    assert_eq!(head.bearer_token, Some("k".to_string()));
    let other = ClientBuilder::<u8>::new().api_key("k").with_client("http").build();
    assert_eq!(*other.http_client(), "http");
    assert_eq!(other.get("x").bearer_token, Some("k".to_string()));
}

#[test]
fn leading_slashes_do_not_matter() {
    let client = keyed();
    for path in ["models", "/models", "//models"] {
        assert_eq!(client.get(path).url, "http://host/v1/models");
    }
    assert_eq!(client.get("").url, "http://host/v1/");
    assert_eq!(client.get("/a/b/").url, "http://host/v1/a/b/");
}

#[test]
fn key_is_not_shown() {
    let client = keyed();
    let fields = client.debug_fields();
    assert_eq!(fields.base_url, "http://host/v1");
    assert_eq!(*fields.http_client, 0);
    assert_eq!(fields.api_key, Some("<REDACTED>"));
    let open: Client<u8> = Client::new();
    assert_eq!(open.debug_fields().api_key, None);
}

#[test]
fn client_is_made_of_variables() {
    let client: Client<u8> =
        Client::from_vars("http://env/v1".to_string(), Some("secret".to_string()));
    assert_eq!(client.get("models").url, "http://env/v1/models");
    assert_eq!(client.get("models").bearer_token, Some("secret".to_string()));
    let open: Client<u8> = Client::from_vars("http://env/v1".to_string(), None);
    assert_eq!(open.get("models").bearer_token, None);
}

#[test]
fn client_is_made_of_a_simple_value() {
    let client: Client<u8> = Client::from_val(ProviderValue::Simple("unread".to_string()));
    assert_eq!(client.get("models").url, "http://localhost:8402/v1/models");
    assert_eq!(client.get("models").bearer_token, None);
}

#[test]
fn copy_of_a_client_is_the_same() {
    let client = keyed();
    assert_eq!(client.clone().post("x"), client.post("x"));
}

#[test]
fn models_are_made_by_name() {
    let client = keyed();
    let model: CompletionModel<u8> = client.completion_model("qwen2.5");
    assert_eq!(model.model, "qwen2.5");
    assert_eq!(model.client.get("models"), client.get("models"));
    let extractor: ExtractorBuilder<CompletionModel<u8>, String> =
        client.extractor_completions_api("qwen2.5");
    assert_eq!(extractor.model.model, "qwen2.5");
    assert_eq!(extractor.model.completion_head().url, "http://host/v1/chat/completions");
}

#[test]
fn server_is_verified_by_its_status() {
    let head = keyed().verification_head();
    assert_eq!(head.method, Method::Get);
    assert_eq!(head.url, "http://host/v1/models");
    for status in [200u16, 201, 403, 404, 502, 503] {
        assert_eq!(next_verify_step(status), VerifyStep::Accept);
        assert_eq!(verify_outcome(status, String::new()), Ok(()));
    }
    assert_eq!(next_verify_step(401), VerifyStep::Unauthorized);
    assert_eq!(
        verify_outcome(401, "unread".to_string()),
        Err(VerifyError::InvalidAuthentication)
    );
    assert_eq!(next_verify_step(500), VerifyStep::ReadBody);
    assert_eq!(
        verify_outcome(500, "out of memory".to_string()),
        Err(VerifyError::ProviderError("out of memory".to_string()))
    );
}

#[test]
fn nothing_is_embedded() {
    let client = keyed();
    let model = client.embedding_model("any");
    assert_eq!(model, DummyEmbeddingModel::new());
    assert_eq!(client.embedding_model_with_ndims("any", 3), model);
    let builder: EmbeddingsBuilder<DummyEmbeddingModel, String> = client.embeddings("any");
    assert_eq!(builder.model, model);
    assert_eq!(model.ndims(), 0);
    assert_eq!(DummyEmbeddingModel::MAX_DOCUMENTS, 0);
    let embedded: Result<Vec<f64>, EmbeddingError> = model.embed_texts(vec!["a".to_string()]);
    assert_eq!(
        embedded,
        Err(EmbeddingError::ProviderError("LlamaCpp does not support embeddings".to_string()))
    );
}
