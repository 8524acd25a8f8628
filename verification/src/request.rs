//! The completion request that is sent to the server.
use crate::api;
use crate::api::{CompletionError, CompletionErrorView};
use crate::completion::{Message, MessageView, ToolChoice, ToolDefinition, ToolDefinitionView};
use crate::message;
use vstd::prelude::*;
use vstd::std_specs::convert::TryFromSpecImpl;

verus! {

/// A completion request in the server's form. `F` is the type of the sampling temperature.
#[derive(Debug, Clone)]
pub struct CompletionRequest<F> {
    pub model: String,
    pub messages: Vec<Message>,
    pub tools: Vec<ToolDefinition>,
    pub tool_choice: Option<ToolChoice>,
    pub temperature: Option<F>,
    pub additional_params: Option<serde_json::Value>,
}

/// The messages of a conversation, those of its documents first.
pub open spec fn history(
    documents: Option<message::MessageView>,
    chat_history: Seq<message::MessageView>,
) -> Seq<message::MessageView> {
    match documents {
        Some(documents) => seq![documents] + chat_history,
        None => chat_history,
    }
}

/// The messages that come ahead of a conversation.
pub open spec fn opening(preamble: Option<Seq<char>>) -> Seq<MessageView> {
    match preamble {
        Some(text) => seq![crate::completion::system_message(text)],
        None => Seq::empty(),
    }
}

/// The messages of a conversation in the server's form, message by message, or why one of them
/// has none.
pub open spec fn history_to_server(messages: Seq<message::MessageView>) -> Result<
    Seq<Seq<MessageView>>,
    Seq<char>,
> {
    crate::outcome::try_each(
        messages,
        |message: message::MessageView| crate::to_server::message_to_server(message),
    )
}

/// The tool choice of a request in the server's form, or why it has none.
pub open spec fn requested_tool_choice(choice: Option<message::ToolChoice>) -> Result<
    Option<ToolChoice>,
    CompletionErrorView,
> {
    match choice {
        Some(choice) => match crate::to_server::tool_choice_to_server(choice) {
            Ok(choice) => Ok(Some(choice)),
            Err(error) => Err(error),
        },
        None => Ok(None),
    }
}

/// The messages of a request in the server's form, or why it has none: the preamble, the
/// documents, and the conversation.
pub open spec fn requested_messages<F>(request: api::CompletionRequest<F>) -> Result<
    Seq<MessageView>,
    Seq<char>,
> {
    match history_to_server(
        history(request.documents.deep_view(), request.chat_history.deep_view()),
    ) {
        Ok(messages) => Ok(opening(request.preamble.deep_view()) + messages.flatten()),
        Err(error) => Err(error),
    }
}

/// `built` is `request` to `model` in the server's form, or the error where it has none. A
/// message that cannot be sent comes before a tool choice that cannot.
pub open spec fn is_server_request<F>(
    model: String,
    request: api::CompletionRequest<F>,
    built: Result<CompletionRequest<F>, CompletionError>,
) -> bool {
    match requested_messages(request) {
        Ok(messages) => match requested_tool_choice(request.tool_choice) {
            Ok(tool_choice) => {
                &&& built matches Ok(built)
                &&& built.model == model
                &&& built.messages.deep_view() == messages
                &&& built.tools.deep_view() == request.tools.deep_view().map_values(
                    |tool: api::ToolDefinitionView| crate::completion::function_tool(tool),
                )
                &&& built.tool_choice == tool_choice
                &&& built.temperature == request.temperature
                &&& built.additional_params == request.additional_params
            },
            Err(error) => {
                &&& built matches Err(given)
                &&& given.deep_view() == error
            },
        },
        Err(error) => {
            &&& built matches Err(given)
            &&& given.deep_view() == CompletionErrorView::RequestError(error)
        },
    }
}

/// The documents and the conversation of a request, in one list.
fn gather_history(
    documents: Option<message::Message>,
    chat_history: Vec<message::Message>,
) -> (messages: Vec<message::Message>)
    ensures
        messages.deep_view() == history(documents.deep_view(), chat_history.deep_view()),
{
    let mut messages: Vec<message::Message> = Vec::new();
    if let Some(documents) = documents {
        messages.push(documents);
    }
    let ghost first = messages.deep_view();
    let ghost rest = chat_history.deep_view();
    let mut chat_history = chat_history;
    messages.append(&mut chat_history);
    assert(messages.deep_view() == first + rest);
    assert(messages.deep_view() == history(documents.deep_view(), rest));
    messages
}

/// The messages in the server's form, appended to `opened`.
fn convert_history(opened: Vec<Message>, messages: Vec<message::Message>) -> (converted: Result<
    Vec<Message>,
    message::MessageError,
>)
    ensures
        crate::outcome::outcome(converted) == (match history_to_server(messages.deep_view()) {
            Ok(lists) => Ok(opened.deep_view() + lists.flatten()),
            Err(error) => Err(error),
        }),
{
    let ghost given = messages.deep_view();
    let ghost all = messages@;
    let ghost start = opened.deep_view();
    let ghost f = |message: message::MessageView| crate::to_server::message_to_server(message);
    let ghost mut lists: Seq<Seq<MessageView>> = Seq::empty();
    let mut converted = opened;
    assert(start + lists.flatten() == start);
    for message in it: messages
        invariant
            it.seq() == all,
            given == messages.deep_view(),
            f == (|message: message::MessageView| crate::to_server::message_to_server(message)),
            given.len() == all.len(),
            forall|i: int| 0 <= i < all.len() ==> #[trigger] given[i] == all[i].deep_view(),
            lists.len() == it.index(),
            forall|i: int|
                #![trigger given[i]]
                #![trigger lists[i]]
                0 <= i < lists.len() ==> f(given[i]) == Ok::<Seq<MessageView>, Seq<char>>(lists[i]),
            converted.deep_view() == start + lists.flatten(),
    {
        assert(given[it.index()] == message.deep_view());
        match Vec::<Message>::try_from(message) {
            Ok(mut list) => {
                let ghost before = converted.deep_view();
                let ghost next = list.deep_view();
                converted.append(&mut list);
                assert(converted.deep_view() == before + next);
                proof {
                    lists.lemma_flatten_push(next);
                    lists = lists.push(next);
                }
                assert(converted.deep_view() == start + lists.flatten());
            },
            Err(error) => {
                proof {
                    crate::outcome::lemma_try_each_err(given, f, it.index(), error.deep_view());
                }
                return Err(error);
            },
        }
    }
    proof {
        crate::outcome::lemma_try_each_ok(given, f, lists);
    }
    Ok(converted)
}

fn convert_tools(tools: Vec<api::ToolDefinition>) -> (converted: Vec<ToolDefinition>)
    ensures
        converted.deep_view() == tools.deep_view().map_values(
            |tool: api::ToolDefinitionView| crate::completion::function_tool(tool),
        ),
{
    let ghost all = tools@;
    let mut converted: Vec<ToolDefinition> = Vec::new();
    for tool in it: tools
        invariant
            it.seq() == all,
            converted@.len() == it.index(),
            forall|i: int|
                0 <= i < converted@.len() ==> (#[trigger] converted@[i]).deep_view()
                    == crate::completion::function_tool(all[i].deep_view()),
    {
        converted.push(ToolDefinition::from(tool));
    }
    assert(converted.deep_view() == tools.deep_view().map_values(
        |tool: api::ToolDefinitionView| crate::completion::function_tool(tool),
    ));
    converted
}

impl<F> TryFrom<(String, api::CompletionRequest<F>)> for CompletionRequest<F> {
    type Error = CompletionError;

    fn try_from(value: (String, api::CompletionRequest<F>)) -> (built: Result<
        Self,
        CompletionError,
    >)
        ensures
            is_server_request(value.0, value.1, built),
    {
        let (model, request) = value;
        let chat_history = request.chat_history.into_vec();
        assert(chat_history.deep_view() == value.1.chat_history.deep_view());
        let partial_history = gather_history(request.documents, chat_history);
        let mut full_history: Vec<Message> = Vec::new();
        if let Some(preamble) = request.preamble {
            full_history.push(Message::system(preamble.as_str()));
        }
        assert(full_history.deep_view() == opening(value.1.preamble.deep_view()));
        let messages = match convert_history(full_history, partial_history) {
            Ok(messages) => messages,
            Err(error) => {
                return Err(CompletionError::RequestError(error));
            },
        };
        let tool_choice = match request.tool_choice {
            Some(choice) => match ToolChoice::try_from(choice) {
                Ok(choice) => Some(choice),
                Err(error) => {
                    return Err(error);
                },
            },
            None => None,
        };
        Ok(
            CompletionRequest {
                model,
                messages,
                tools: convert_tools(request.tools),
                tool_choice,
                temperature: request.temperature,
                additional_params: request.additional_params,
            },
        )
    }
}

impl<F> TryFromSpecImpl<(String, api::CompletionRequest<F>)> for CompletionRequest<F> {
    open spec fn obeys_try_from_spec() -> bool {
        false
    }

    open spec fn try_from_spec(value: (String, api::CompletionRequest<F>)) -> Result<
        Self,
        CompletionError,
    > {
        arbitrary()
    }
}

/// The system prompt of a request: the text of the first message, where that is the system's.
pub open spec fn system_prompt(messages: Seq<MessageView>) -> Option<Seq<char>> {
    if messages.len() > 0 {
        crate::completion::system_text(messages[0])
    } else {
        None
    }
}

/// The prompt of a request: the text of the last message, where that is a user's and starts
/// with text.
pub open spec fn prompt(messages: Seq<MessageView>) -> Option<Seq<char>> {
    if messages.len() > 0 {
        crate::completion::user_text(messages.last())
    } else {
        None
    }
}

impl<F> CompletionRequest<F> {
    /// The messages of the request.
    pub fn get_input_messages(&self) -> (messages: Vec<Message>)
        ensures
            messages.deep_view() == self.messages.deep_view(),
    {
        let messages = self.messages.clone();
        assert(messages.deep_view() == self.messages.deep_view());
        messages
    }

    /// The text of the first message, where that is the system's.
    pub fn get_system_prompt(&self) -> (text: Option<String>)
        ensures
            text.deep_view() == system_prompt(self.messages.deep_view()),
    {
        match self.messages.first() {
            Some(message) => message.system_text(),
            None => None,
        }
    }

    /// The text of the last message, where that is a user's and starts with text.
    pub fn get_prompt(&self) -> (text: Option<String>)
        ensures
            text.deep_view() == prompt(self.messages.deep_view()),
    {
        match self.messages.last() {
            Some(message) => message.user_text(),
            None => None,
        }
    }

    /// The model that the request is for.
    pub fn get_model_name(&self) -> (name: String)
        ensures
            name == self.model,
    {
        self.model.clone()
    }
}

} // verus!
