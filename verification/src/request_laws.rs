//! Laws of what a completion request is built of.
use crate::api;
use crate::api::CompletionError;
use crate::client::{Method, RequestHead};
use crate::completion::{
    Message, MessageView, SystemContentType, SystemContentView, ToolChoice, ToolDefinition,
};
use crate::message;
use crate::message::MessageError;
use crate::model::{CompletionModel, OutgoingRequest};
use crate::request::CompletionRequest;
use vstd::prelude::*;

verus! {

/// `sent` is a function with the name, the description and the parameters of `tool`.
pub open spec fn is_function_for(sent: ToolDefinition, tool: api::ToolDefinition) -> bool {
    &&& sent.kind@ == "function"@
    &&& sent.function.name@ == tool.name@
    &&& sent.function.description@ == tool.description@
    &&& sent.function.parameters == tool.parameters
}

/// The tools of a request are all sent, in their order, each as a function with the name, the
/// description and the parameters of the tool, whatever the tool choice.
pub proof fn every_tool_is_sent<F>(
    model: String,
    request: api::CompletionRequest<F>,
    built: Result<CompletionRequest<F>, CompletionError>,
)
    requires
        call_ensures(
            <CompletionRequest<F> as TryFrom<(String, api::CompletionRequest<F>)>>::try_from,
            ((model, request),),
            built,
        ),
        built is Ok,
    ensures
        built->Ok_0.tools@.len() == request.tools@.len(),
        forall|i: int|
            #![trigger request.tools@[i]]
            0 <= i < request.tools@.len() ==> is_function_for(
                built->Ok_0.tools@[i],
                request.tools@[i],
            ),
{
    let tools = built->Ok_0.tools;
    assert(tools.deep_view().len() == request.tools.deep_view().len());
    assert(tools.deep_view().len() == tools@.len());
    assert(request.tools.deep_view().len() == request.tools@.len());
    assert forall|i: int|
        #![trigger request.tools@[i]]
        0 <= i < request.tools@.len() implies is_function_for(tools@[i], request.tools@[i]) by {
        assert(tools.deep_view()[i] == tools@[i].deep_view());
        assert(request.tools.deep_view()[i] == request.tools@[i].deep_view());
    }
}

/// A tool is sent as a function with the same name, description and parameters.
pub proof fn tool_is_sent_as_a_function(tool: api::ToolDefinition, sent: ToolDefinition)
    requires
        call_ensures(<ToolDefinition as From<api::ToolDefinition>>::from, (tool,), sent),
    ensures
        is_function_for(sent, tool),
{
}

/// The name of the model, the temperature and the additional parameters are sent as they are.
pub proof fn settings_are_sent_unchanged<F>(
    model: String,
    request: api::CompletionRequest<F>,
    built: Result<CompletionRequest<F>, CompletionError>,
)
    requires
        call_ensures(
            <CompletionRequest<F> as TryFrom<(String, api::CompletionRequest<F>)>>::try_from,
            ((model, request),),
            built,
        ),
        built is Ok,
    ensures
        built->Ok_0.model@ == model@,
        built->Ok_0.temperature == request.temperature,
        built->Ok_0.additional_params == request.additional_params,
{
}

/// The tool choice of a request is sent as it is. One that names tools keeps the request from
/// being sent.
pub proof fn tool_choice_is_sent<F>(
    model: String,
    request: api::CompletionRequest<F>,
    built: Result<CompletionRequest<F>, CompletionError>,
)
    requires
        call_ensures(
            <CompletionRequest<F> as TryFrom<(String, api::CompletionRequest<F>)>>::try_from,
            ((model, request),),
            built,
        ),
        built is Ok,
    ensures
        request.tool_choice is None ==> built->Ok_0.tool_choice is None,
        request.tool_choice matches Some(choice) ==> {
            &&& choice is Auto ==> built->Ok_0.tool_choice == Some(ToolChoice::Auto)
            &&& choice is Never ==> built->Ok_0.tool_choice == Some(ToolChoice::Never)
            &&& choice is Required ==> built->Ok_0.tool_choice == Some(ToolChoice::Required)
            &&& !(choice is Specific)
        },
{
}

/// The messages of a request: the documents first, then the conversation.
pub open spec fn conversation<F>(request: api::CompletionRequest<F>) -> Seq<message::Message> {
    match request.documents {
        Some(documents) => seq![documents] + request.chat_history@,
        None => request.chat_history@,
    }
}

/// The request names the tools that may be used.
pub open spec fn names_tools<F>(request: api::CompletionRequest<F>) -> bool {
    request.tool_choice matches Some(choice) && choice is Specific
}

/// What comes ahead of the messages of a request: the preamble, as what the system says.
pub open spec fn said_ahead(preamble: Option<String>) -> Seq<MessageView> {
    match preamble {
        Some(text) => seq![
            MessageView::System {
                content: seq![SystemContentView { kind: SystemContentType::Text, text: text@ }],
                name: None,
            },
        ],
        None => Seq::empty(),
    }
}

proof fn lemma_conversation<F>(request: api::CompletionRequest<F>)
    ensures
        ({
            let models = crate::request::history(
                request.documents.deep_view(),
                request.chat_history.deep_view(),
            );
            &&& models.len() == conversation(request).len()
            &&& forall|i: int|
                0 <= i < models.len() ==> #[trigger] models[i] == conversation(
                    request,
                )[i].deep_view()
        }),
{
    let models = crate::request::history(
        request.documents.deep_view(),
        request.chat_history.deep_view(),
    );
    assert forall|i: int| 0 <= i < models.len() implies #[trigger] models[i] == conversation(
        request,
    )[i].deep_view() by {
        if let Some(documents) = request.documents {
            if i > 0 {
                assert(request.chat_history.deep_view()[i - 1] == request.chat_history@[i
                    - 1].deep_view());
            }
        }
    }
}

/// A request is built if every message of it can be sent and its tool choice names no tools. What
/// is sent is the preamble, if there is one, and then what each message is sent as, one after the
/// other.
pub proof fn request_sends_what_its_messages_are_sent_as<F>(
    model: String,
    request: api::CompletionRequest<F>,
    built: Result<CompletionRequest<F>, CompletionError>,
    lists: Seq<Vec<Message>>,
)
    requires
        call_ensures(
            <CompletionRequest<F> as TryFrom<(String, api::CompletionRequest<F>)>>::try_from,
            ((model, request),),
            built,
        ),
        lists.len() == conversation(request).len(),
        forall|i: int|
            0 <= i < lists.len() ==> call_ensures(
                <Vec<Message> as TryFrom<message::Message>>::try_from,
                (conversation(request)[i],),
                Ok::<Vec<Message>, MessageError>(#[trigger] lists[i]),
            ),
    ensures
        !names_tools(request) ==> built is Ok,
        names_tools(request) ==> (built matches Err(CompletionError::ProviderError(reason))
            && reason@ == "Provider doesn't support only using specific tools"@),
        built is Ok ==> built->Ok_0.messages.deep_view() == said_ahead(request.preamble)
            + lists.map_values(|list: Vec<Message>| list.deep_view()).flatten(),
{
    let models = crate::request::history(
        request.documents.deep_view(),
        request.chat_history.deep_view(),
    );
    lemma_conversation(request);
    let f = |message: message::MessageView| crate::to_server::message_to_server(message);
    let values = lists.map_values(|list: Vec<Message>| list.deep_view());
    assert forall|i: int| 0 <= i < models.len() implies f(models[i]) == Ok::<
        Seq<MessageView>,
        Seq<char>,
    >(#[trigger] values[i]) by {
        assert(models[i] == conversation(request)[i].deep_view());
        let sent = Ok::<Vec<Message>, MessageError>(lists[i]);
        assert(crate::outcome::outcome(sent) == f(models[i]));
    }
    crate::outcome::lemma_try_each_ok(models, f, values);
}

/// The first message that cannot be sent keeps the request from being sent, for the reason that
/// keeps that message from being sent, whatever the tool choice.
pub proof fn first_bad_message_gives_the_reason<F>(
    model: String,
    request: api::CompletionRequest<F>,
    built: Result<CompletionRequest<F>, CompletionError>,
    lists: Seq<Vec<Message>>,
    at: int,
    error: MessageError,
)
    requires
        call_ensures(
            <CompletionRequest<F> as TryFrom<(String, api::CompletionRequest<F>)>>::try_from,
            ((model, request),),
            built,
        ),
        0 <= at < conversation(request).len(),
        lists.len() == at,
        forall|i: int|
            0 <= i < at ==> call_ensures(
                <Vec<Message> as TryFrom<message::Message>>::try_from,
                (conversation(request)[i],),
                Ok::<Vec<Message>, MessageError>(#[trigger] lists[i]),
            ),
        call_ensures(
            <Vec<Message> as TryFrom<message::Message>>::try_from,
            (conversation(request)[at],),
            Err::<Vec<Message>, MessageError>(error),
        ),
    ensures
        built matches Err(CompletionError::RequestError(given)) && same_reason(given, error),
{
    let models = crate::request::history(
        request.documents.deep_view(),
        request.chat_history.deep_view(),
    );
    lemma_conversation(request);
    let f = |message: message::MessageView| crate::to_server::message_to_server(message);
    assert forall|i: int| 0 <= i < at implies f(#[trigger] models[i]) is Ok by {
        assert(models[i] == conversation(request)[i].deep_view());
        let sent = Ok::<Vec<Message>, MessageError>(lists[i]);
        assert(crate::outcome::outcome(sent) == f(models[i]));
    }
    let sent = Err::<Vec<Message>, MessageError>(error);
    assert(models[at] == conversation(request)[at].deep_view());
    assert(crate::outcome::outcome(sent) == f(models[at]));
    crate::outcome::lemma_try_each_err(models, f, at, error.deep_view());
}

/// Two failures to convert a message have the same reason.
pub open spec fn same_reason(a: MessageError, b: MessageError) -> bool {
    a matches MessageError::ConversionError(a) && b matches MessageError::ConversionError(b) && a@
        == b@
}

/// The preamble of a request is sent as its first message, by the system, in one text and without
/// a name.
pub proof fn preamble_is_sent_first<F>(
    model: String,
    request: api::CompletionRequest<F>,
    built: Result<CompletionRequest<F>, CompletionError>,
    preamble: String,
)
    requires
        call_ensures(
            <CompletionRequest<F> as TryFrom<(String, api::CompletionRequest<F>)>>::try_from,
            ((model, request),),
            built,
        ),
        built is Ok,
        request.preamble == Some(preamble),
    ensures
        built->Ok_0.messages@.len() > 0,
        built->Ok_0.messages@[0] is System,
        built->Ok_0.messages@[0]->System_name is None,
        built->Ok_0.messages@[0]->System_content@.len() == 1,
        built->Ok_0.messages@[0]->System_content@[0].text@ == preamble@,
{
    let messages = built->Ok_0.messages;
    assert(messages.deep_view()[0] == crate::completion::system_message(preamble@));
    assert(messages.deep_view().len() == messages@.len());
    assert(messages.deep_view()[0] == messages@[0].deep_view());
    let parts = messages@[0]->System_content;
    assert(parts.deep_view().len() == parts@.len());
    assert(parts.deep_view()[0] == parts@[0].deep_view());
}

/// A system message holds its text and nothing else.
pub proof fn system_message_holds_its_text(text: &str, message: Message)
    requires
        call_ensures(Message::system, (text,), message),
    ensures
        message is System,
        message->System_name is None,
        message->System_content@.len() == 1,
        message->System_content@[0].text@ == text@,
{
    let parts = message->System_content;
    assert(parts.deep_view().len() == parts@.len());
    assert(parts.deep_view()[0] == parts@[0].deep_view());
}

/// A request tells its model and its messages.
pub proof fn request_tells_what_it_holds<F>(
    request: CompletionRequest<F>,
    name: String,
    messages: Vec<Message>,
)
    requires
        call_ensures(CompletionRequest::<F>::get_model_name, (&request,), name),
        call_ensures(CompletionRequest::<F>::get_input_messages, (&request,), messages),
    ensures
        name@ == request.model@,
        messages@.len() == request.messages@.len(),
        forall|i: int|
            0 <= i < messages@.len() ==> (#[trigger] messages@[i]).deep_view()
                == request.messages@[i].deep_view(),
{
    assert(messages.deep_view().len() == messages@.len());
    assert(request.messages.deep_view().len() == request.messages@.len());
    assert forall|i: int| 0 <= i < messages@.len() implies (#[trigger] messages@[i]).deep_view()
        == request.messages@[i].deep_view() by {
        assert(messages.deep_view()[i] == messages@[i].deep_view());
        assert(request.messages.deep_view()[i] == request.messages@[i].deep_view());
    }
}

/// The system prompt of a request is the text that its first message starts with, where the
/// system says that message.
pub proof fn system_prompt_is_what_the_system_says_first<F>(
    request: CompletionRequest<F>,
    text: Option<String>,
)
    requires
        call_ensures(CompletionRequest::<F>::get_system_prompt, (&request,), text),
    ensures
        request.messages@.len() > 0 && request.messages@[0] is System ==> text is Some && text->0@
            == request.messages@[0]->System_content@[0].text@,
        !(request.messages@.len() > 0 && request.messages@[0] is System) ==> text is None,
{
    let messages = request.messages;
    assert(messages.deep_view().len() == messages@.len());
    if messages@.len() > 0 {
        assert(messages.deep_view()[0] == messages@[0].deep_view());
        if messages@[0] is System {
            let parts = messages@[0]->System_content;
            assert(parts.deep_view()[0] == parts@[0].deep_view());
        }
    }
}

/// The prompt of a request is the text that its last message starts with, where a user says that
/// message and it starts with text.
pub proof fn prompt_is_what_the_user_says_last<F>(
    request: CompletionRequest<F>,
    text: Option<String>,
)
    requires
        call_ensures(CompletionRequest::<F>::get_prompt, (&request,), text),
    ensures
        ({
            let last = request.messages@.last();
            let asks = request.messages@.len() > 0 && last is User && last->User_content@[0] is Text;
            &&& asks ==> text is Some && text->0@ == last->User_content@[0]->text@
            &&& !asks ==> text is None
        }),
{
    let messages = request.messages;
    assert(messages.deep_view().len() == messages@.len());
    if messages@.len() > 0 {
        assert(messages.deep_view().last() == messages@.last().deep_view());
        if messages@.last() is User {
            let parts = messages@.last()->User_content;
            assert(parts.deep_view()[0] == parts@[0].deep_view());
        }
    }
}

/// Two outcomes of building a request hold the same request, or are refused for the same reason.
pub open spec fn same_outcome<F>(
    a: Result<CompletionRequest<F>, CompletionError>,
    b: Result<CompletionRequest<F>, CompletionError>,
) -> bool {
    match (a, b) {
        (Ok(a), Ok(b)) => {
            &&& a.model@ == b.model@
            &&& a.messages.deep_view() == b.messages.deep_view()
            &&& a.tools.deep_view() == b.tools.deep_view()
            &&& a.tool_choice == b.tool_choice
            &&& a.temperature == b.temperature
            &&& a.additional_params == b.additional_params
        },
        (Err(a), Err(b)) => a.deep_view() == b.deep_view(),
        _ => false,
    }
}

/// A model builds requests to itself.
pub proof fn model_builds_requests_to_itself<T, F>(
    model: CompletionModel<T>,
    request: api::CompletionRequest<F>,
    built: Result<CompletionRequest<F>, CompletionError>,
    own: Result<CompletionRequest<F>, CompletionError>,
)
    requires
        call_ensures(CompletionModel::<T>::build_request::<F>, (&model, request), built),
        call_ensures(
            <CompletionRequest<F> as TryFrom<(String, api::CompletionRequest<F>)>>::try_from,
            ((model.model, request),),
            own,
        ),
    ensures
        same_outcome(built, own),
{
}

/// A completion request is posted to `/chat/completions` at the server of the client, with the key
/// of the client, as JSON, and it is the request that is built; where none is built, nothing is
/// sent, for the same reason.
pub proof fn built_request_is_posted<T, F>(
    model: CompletionModel<T>,
    request: api::CompletionRequest<F>,
    prepared: Result<OutgoingRequest<F>, CompletionError>,
    built: Result<CompletionRequest<F>, CompletionError>,
)
    requires
        call_ensures(CompletionModel::<T>::prepare_completion::<F>, (&model, request), prepared),
        call_ensures(CompletionModel::<T>::build_request::<F>, (&model, request), built),
    ensures
        match prepared {
            Ok(outgoing) => {
                &&& same_outcome(Ok(outgoing.body), built)
                &&& outgoing.content_type@ == "application/json"@
                &&& outgoing.head.method == Method::Post
                &&& outgoing.head.url@ == model.client@.base_url + "/chat/completions"@
                &&& outgoing.head.bearer_token.deep_view() == model.client@.api_key
            },
            Err(error) => same_outcome(Err(error), built),
        },
{
    lemma_completion_path();
    if let Ok(outgoing) = prepared {
        assert(model.client@.base_url + "/"@ + "chat/completions"@ =~= model.client@.base_url
            + "/chat/completions"@) by {
            reveal_strlit("/");
            reveal_strlit("chat/completions");
            reveal_strlit("/chat/completions");
        }
    }
}

proof fn lemma_completion_path()
    ensures
        crate::text::without_leading_slashes("/chat/completions"@) == "chat/completions"@,
{
    reveal_strlit("/chat/completions");
    reveal_strlit("chat/completions");
    assert("/chat/completions"@.drop_first() =~= "chat/completions"@);
    assert(crate::text::without_leading_slashes("chat/completions"@) == "chat/completions"@);
}

/// The head of a completion request posts to `/chat/completions` with the key of the client.
pub proof fn completion_head_posts_to_the_server<T>(model: CompletionModel<T>, head: RequestHead)
    requires
        call_ensures(CompletionModel::<T>::completion_head, (&model,), head),
    ensures
        head.method == Method::Post,
        head.url@ == model.client@.base_url + "/chat/completions"@,
        head.bearer_token.deep_view() == model.client@.api_key,
{
    lemma_completion_path();
    reveal_strlit("/");
    reveal_strlit("chat/completions");
    reveal_strlit("/chat/completions");
    assert(model.client@.base_url + "/"@ + "chat/completions"@ =~= model.client@.base_url
        + "/chat/completions"@);
}

/// A completion request is sent as JSON.
pub proof fn completion_is_sent_as_json(value: &'static str)
    requires
        call_ensures(crate::model::completion_content_type, (), value),
    ensures
        value@ == "application/json"@,
{
}

} // verus!
