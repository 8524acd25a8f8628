//! Laws of the client.
use crate::builder::{AgentBuilder, EmbeddingsBuilder, ExtractorBuilder};
use crate::client::{
    Client, ClientBuilder, ClientFields, ClientView, DummyEmbeddingModel, EmbeddingError, Method,
    ProviderValue, RequestHead, VerifyError, VerifyStep,
};
use crate::model::CompletionModel;
use vstd::prelude::*;

verus! {

/// What is left of a path does not start with a slash.
proof fn lemma_no_leading_slash(path: Seq<char>)
    ensures
        ({
            let rest = crate::text::without_leading_slashes(path);
            rest.len() > 0 ==> rest[0] != '/'
        }),
    decreases path.len(),
{
    if path.len() > 0 && path[0] == '/' {
        lemma_no_leading_slash(path.drop_first());
    }
}

/// It does not matter whether a path is given with or without a slash in front.
pub proof fn leading_slash_does_not_matter(base_url: Seq<char>, path: Seq<char>)
    ensures
        crate::client::endpoint(base_url, seq!['/'] + path) == crate::client::endpoint(
            base_url,
            path,
        ),
{
    assert((seq!['/'] + path).drop_first() == path);
}

/// Between the base URL and what is left of a path stands the one slash that joins them.
pub proof fn one_slash_joins_base_and_path(base_url: Seq<char>, path: Seq<char>)
    ensures
        ({
            let url = crate::client::endpoint(base_url, path);
            &&& url.len() > base_url.len()
            &&& url.take(base_url.len() as int) == base_url
            &&& url[base_url.len() as int] == '/'
            &&& url.len() > base_url.len() + 1 ==> url[base_url.len() as int + 1] != '/'
        }),
{
    reveal_strlit("/");
    lemma_no_leading_slash(path);
    assert(crate::client::endpoint(base_url, path).take(base_url.len() as int) == base_url);
}

/// A client shows its key to the server with every request, and nothing else as a token.
pub proof fn every_request_carries_the_key<T>(
    client: ClientView<T>,
    method: Method,
    path: Seq<char>,
)
    ensures
        crate::client::request_head(client, method, path).bearer_token == client.api_key,
{
}

/// A client is set up for the local server and without a key, unless it is told otherwise.
pub proof fn local_server_is_the_default<'a, T: Default>(
    builder: ClientBuilder<'a, T>,
    started: ClientBuilder<'a, T>,
    client: Client<T>,
)
    requires
        call_ensures(ClientBuilder::<'a, T>::new, (), builder),
        call_ensures(Client::<T>::builder, (), started),
        call_ensures(Client::<T>::new, (), client),
    ensures
        builder@.base_url == "http://localhost:8402/v1"@ && builder@.api_key is None,
        started@.base_url == "http://localhost:8402/v1"@ && started@.api_key is None,
        client@.base_url == "http://localhost:8402/v1"@ && client@.api_key is None,
        call_ensures(T::default, (), builder@.http_client),
        call_ensures(T::default, (), started@.http_client),
        call_ensures(T::default, (), client@.http_client),
{
}

/// A client is set up with the base URL, the key and the HTTP client that it is told, and each of
/// them leaves the others as they are.
pub proof fn client_is_set_up_as_told<'a, T, U>(
    builder: ClientBuilder<'a, T>,
    base_url: &'a str,
    with_url: ClientBuilder<'a, T>,
    api_key: &'a str,
    with_key: ClientBuilder<'a, T>,
    http_client: U,
    with_client: ClientBuilder<'a, U>,
    client: Client<T>,
)
    requires
        call_ensures(ClientBuilder::<'a, T>::base_url, (builder, base_url), with_url),
        call_ensures(ClientBuilder::<'a, T>::api_key, (builder, api_key), with_key),
        call_ensures(
            ClientBuilder::<'a, T>::with_client::<U>,
            (builder, http_client),
            with_client,
        ),
        call_ensures(ClientBuilder::<'a, T>::build, (builder,), client),
    ensures
        with_url@.base_url == base_url@,
        with_url@.api_key == builder@.api_key,
        with_url@.http_client == builder@.http_client,
        with_key@.base_url == builder@.base_url,
        with_key@.api_key == Some(api_key@),
        with_key@.http_client == builder@.http_client,
        with_client@.base_url == builder@.base_url,
        with_client@.api_key == builder@.api_key,
        with_client@.http_client == http_client,
        client@.base_url == builder@.base_url,
        client@.api_key == builder@.api_key,
        client@.http_client == builder@.http_client,
{
}

/// A client takes its base URL and its key from the environment; for a simple provider value it is
/// that of the local server, without a key.
pub proof fn client_is_set_up_from_outside<T: Default>(
    base_url: String,
    api_key: Option<String>,
    client: Client<T>,
    value: ProviderValue,
    local: Client<T>,
)
    requires
        call_ensures(Client::<T>::from_vars, (base_url, api_key), client),
        call_ensures(Client::<T>::from_val, (value,), local),
    ensures
        client@.base_url == base_url@,
        api_key is None ==> client@.api_key is None,
        api_key matches Some(key) ==> client@.api_key == Some(key@),
        local@.base_url == "http://localhost:8402/v1"@,
        local@.api_key is None,
        call_ensures(T::default, (), client@.http_client),
        call_ensures(T::default, (), local@.http_client),
{
}

/// `url` is the URL of `path` at a server: the base URL, one slash, and all of the path behind the
/// slashes that it starts with.
pub open spec fn is_url_of(url: Seq<char>, base_url: Seq<char>, path: Seq<char>) -> bool {
    exists|slashes: int|
        {
            &&& 0 <= slashes <= path.len()
            &&& forall|i: int| 0 <= i < slashes ==> #[trigger] path[i] == '/'
            &&& slashes < path.len() ==> path[slashes] != '/'
            &&& url == base_url + seq!['/'] + #[trigger] path.skip(slashes)
        }
}

proof fn lemma_endpoint(base_url: Seq<char>, path: Seq<char>)
    ensures
        is_url_of(crate::client::endpoint(base_url, path), base_url, path),
{
    crate::text_laws::lemma_trimmed(path);
    let rest = crate::text::without_leading_slashes(path);
    let slashes = path.len() - rest.len();
    reveal_strlit("/");
    assert("/"@ =~= seq!['/']);
    assert(crate::client::endpoint(base_url, path) == base_url + seq!['/'] + path.skip(slashes));
}

/// Requests are made with their method, to the URL of their path, and show the key of the client
/// where it has one, and no token where it has none.
pub proof fn requests_go_to_the_server<T>(
    client: Client<T>,
    path: &str,
    post: RequestHead,
    get: RequestHead,
)
    requires
        call_ensures(Client::<T>::post, (&client, path), post),
        call_ensures(Client::<T>::get, (&client, path), get),
    ensures
        post.method == Method::Post,
        get.method == Method::Get,
        is_url_of(post.url@, client@.base_url, path@),
        get.url@ == post.url@,
        client@.api_key is None ==> post.bearer_token is None && get.bearer_token is None,
        client@.api_key matches Some(key) ==> {
            &&& post.bearer_token is Some && post.bearer_token->0@ == key
            &&& get.bearer_token is Some && get.bearer_token->0@ == key
        },
{
    lemma_endpoint(client@.base_url, path@);
}

/// A server is verified by a request for its models, with the key of the client.
pub proof fn models_are_asked_for<T>(client: Client<T>, head: RequestHead)
    requires
        call_ensures(Client::<T>::verification_head, (&client,), head),
    ensures
        head.method == Method::Get,
        head.url@ == client@.base_url + "/models"@,
        head.bearer_token.deep_view() == client@.api_key,
{
    reveal_strlit("/models");
    reveal_strlit("models");
    reveal_strlit("/");
    assert("/models"@.drop_first() =~= "models"@);
    assert(crate::text::without_leading_slashes("models"@) == "models"@);
    assert(client@.base_url + "/"@ + "models"@ =~= client@.base_url + "/models"@);
}

/// The key of a client is not shown; whether there is one is, as is all else.
pub proof fn key_is_never_shown<'a, T>(client: &'a Client<T>, fields: ClientFields<'a, T>)
    requires
        call_ensures(Client::<T>::debug_fields, (client,), fields),
    ensures
        fields.base_url@ == client@.base_url,
        *fields.http_client == client@.http_client,
        client@.api_key is None ==> fields.api_key is None,
        client@.api_key is Some ==> fields.api_key is Some && fields.api_key->0@ == "<REDACTED>"@,
{
}

/// A client gives its HTTP client, and a copy of it has the same base URL and key.
pub proof fn copy_of_a_client_is_the_same<T: Clone>(
    client: Client<T>,
    http_client: &T,
    copy: Client<T>,
)
    requires
        call_ensures(Client::<T>::http_client, (&client,), http_client),
        call_ensures(<Client<T> as Clone>::clone, (&client,), copy),
    ensures
        *http_client == client@.http_client,
        copy@.base_url == client@.base_url,
        copy@.api_key == client@.api_key,
        cloned::<T>(client@.http_client, copy@.http_client),
{
}

/// A completion model has the name that is asked for, and the base URL and the key of the client;
/// so has the model of an extractor.
pub proof fn models_are_those_of_the_client<T: Clone, U>(
    client: Client<T>,
    name: &str,
    model: CompletionModel<T>,
    extractor: ExtractorBuilder<CompletionModel<T>, U>,
)
    requires
        call_ensures(Client::<T>::completion_model, (&client, name), model),
        call_ensures(Client::<T>::extractor_completions_api::<U>, (&client, name), extractor),
    ensures
        model.model@ == name@,
        model.client@.base_url == client@.base_url,
        model.client@.api_key == client@.api_key,
        cloned::<T>(client@.http_client, model.client@.http_client),
        extractor.model.model@ == name@,
        extractor.model.client@.base_url == client@.base_url,
        extractor.model.client@.api_key == client@.api_key,
        cloned::<T>(client@.http_client, extractor.model.client@.http_client),
{
}

/// A model holds the client and the name that it is made of, a copy of it has the same, and an
/// agent is set up on the model itself.
pub proof fn model_holds_what_it_is_made_of<T: Clone>(
    client: Client<T>,
    name: &str,
    model: CompletionModel<T>,
    copy: CompletionModel<T>,
    agent: AgentBuilder<CompletionModel<T>>,
)
    requires
        call_ensures(CompletionModel::<T>::new, (client, name), model),
        call_ensures(<CompletionModel<T> as Clone>::clone, (&model,), copy),
        call_ensures(CompletionModel::<T>::into_agent_builder, (model,), agent),
    ensures
        model.client == client,
        model.model@ == name@,
        copy.model@ == name@,
        copy.client@.base_url == client@.base_url,
        copy.client@.api_key == client@.api_key,
        cloned::<T>(client@.http_client, copy.client@.http_client),
        agent.model == model,
{
}

/// A server is refused where its status is 401, for want of a key, or 500, with the text of its
/// reply, and is fine otherwise.
pub proof fn status_decides_on_the_server(
    status: u16,
    text: String,
    step: VerifyStep,
    outcome: Result<(), VerifyError>,
)
    requires
        call_ensures(crate::client::next_verify_step, (status,), step),
        call_ensures(crate::client::verify_outcome, (status, text), outcome),
    ensures
        status == 401 ==> step is Unauthorized && (outcome matches Err(error) && error
            is InvalidAuthentication),
        status == 500 ==> step is ReadBody && (outcome matches Err(VerifyError::ProviderError(
            reason,
        )) && reason@ == text@),
        status != 401 && status != 500 ==> step is Accept && outcome is Ok,
{
}

/// No text is embedded, whichever the texts, and embeddings have no dimensions.
pub proof fn nothing_is_embedded<T, D, E>(
    client: Client<T>,
    name: &str,
    model: DummyEmbeddingModel,
    builder: EmbeddingsBuilder<DummyEmbeddingModel, D>,
    dimensions: usize,
    documents: Vec<String>,
    embedded: Result<Vec<E>, EmbeddingError>,
)
    requires
        call_ensures(Client::<T>::embedding_model, (&client, name), model),
        call_ensures(Client::<T>::embeddings::<D>, (&client, name), builder),
        call_ensures(DummyEmbeddingModel::ndims, (&model,), dimensions),
        call_ensures(DummyEmbeddingModel::embed_texts::<E>, (&model, documents), embedded),
    ensures
        builder.model == model,
        dimensions == 0,
        embedded matches Err(EmbeddingError::ProviderError(reason)) && reason@
            == "LlamaCpp does not support embeddings"@,
{
}

} // verus!
