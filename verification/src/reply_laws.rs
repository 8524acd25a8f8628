//! Laws of what the replies of a server are received as.
use crate::api;
use crate::api::CompletionError;
use crate::completion::{AssistantContent, AssistantContentView, ToolCall};
use crate::message;
use crate::model::{ApiErrorResponse, ApiResponse, Reply};
use crate::response::{Choice, CompletionResponse, Usage};
use crate::streaming::StreamingCompletionResponse;
use vstd::prelude::*;

verus! {

/// A text or a refusal that is not empty.
pub open spec fn says_something(part: AssistantContent) -> bool {
    match part {
        AssistantContent::Text { text } => text@.len() > 0,
        AssistantContent::Refusal { refusal } => refusal@.len() > 0,
        AssistantContent::Reasoning { .. } => false,
    }
}

/// `received` is the text or the refusal that `part` holds.
pub open spec fn is_said(part: AssistantContent, received: message::AssistantContent) -> bool {
    &&& received matches message::AssistantContent::Text(given)
    &&& match part {
        AssistantContent::Text { text } => given.text@ == text@,
        AssistantContent::Refusal { refusal } => given.text@ == refusal@,
        AssistantContent::Reasoning { .. } => false,
    }
}

/// How many parts of an answer are said in words.
pub open spec fn words_in(content: Seq<AssistantContent>) -> int {
    crate::lists::how_many(content, |part: AssistantContent| says_something(part)) as int
}

/// How many parts of an answer are reasoning: one, unless there is none or it is empty.
pub open spec fn thoughts_in(reasoning: Option<String>) -> int {
    match reasoning {
        Some(text) => if text@.len() > 0 {
            1
        } else {
            0
        },
        None => 0,
    }
}

/// A reply has the given first answer, by an assistant.
pub open spec fn first_answer_is(
    response: CompletionResponse,
    content: Vec<AssistantContent>,
    reasoning: Option<String>,
    tool_calls: Vec<ToolCall>,
) -> bool {
    &&& response.choices@.len() > 0
    &&& response.choices@[0].message is Assistant
    &&& response.choices@[0].message->Assistant_content == content
    &&& response.choices@[0].message->Assistant_reasoning == reasoning
    &&& response.choices@[0].message->tool_calls == tool_calls
}

/// A reply is refused for the given reason.
pub open spec fn is_refused_for(
    reply: Result<api::CompletionResponse<CompletionResponse>, CompletionError>,
    reason: Seq<char>,
) -> bool {
    reply matches Err(CompletionError::ResponseError(given)) && given@ == reason
}

proof fn lemma_words(content: Vec<AssistantContent>)
    ensures
        ({
            let words = crate::response::spoken_parts(content.deep_view());
            &&& words.len() == words_in(content@)
            &&& forall|at: int|
                #![trigger content@[at]]
                0 <= at < content@.len() && says_something(content@[at]) ==> 0 <= words_in(
                    content@.take(at),
                ) < words.len() && crate::response::spoken(content@[at].deep_view()) == Some(
                    words[words_in(content@.take(at))],
                )
        }),
{
    let f = |part: AssistantContentView| crate::response::spoken(part);
    let p = |part: AssistantContent| says_something(part);
    let models = content.deep_view();
    let words = crate::response::spoken_parts(models);
    assert(words == models.filter_map(f));
    assert forall|i: int| 0 <= i < content@.len() implies (p(#[trigger] content@[i]) <==> f(
        models[i],
    ) is Some) by {
        assert(models[i] == content@[i].deep_view());
    }
    crate::lists::lemma_filter_map_counts(content@, p, models, f);
    assert forall|at: int|
        #![trigger content@[at]]
        0 <= at < content@.len() && says_something(content@[at]) implies 0 <= words_in(
        content@.take(at),
    ) < words.len() && crate::response::spoken(content@[at].deep_view()) == Some(
        words[words_in(content@.take(at))],
    ) by {
        assert(p(content@[at]));
        assert(models[at] == content@[at].deep_view());
    }
}

proof fn lemma_answer(
    response: CompletionResponse,
    content: Vec<AssistantContent>,
    reasoning: Option<String>,
    tool_calls: Vec<ToolCall>,
)
    requires
        first_answer_is(response, content, reasoning, tool_calls),
    ensures
        ({
            let first = response.choices.deep_view()[0].message;
            &&& response.choices.deep_view().len() > 0
            &&& first is Assistant
            &&& first->Assistant_content == content.deep_view()
            &&& first->Assistant_reasoning == reasoning.deep_view()
            &&& first->tool_calls == tool_calls.deep_view()
        }),
        crate::response::answer_parts(
            content.deep_view(),
            reasoning.deep_view(),
            tool_calls.deep_view(),
        ).len() == words_in(content@) + thoughts_in(reasoning) + tool_calls@.len(),
{
    assert(response.choices.deep_view().len() == response.choices@.len());
    assert(response.choices.deep_view()[0] == response.choices@[0].deep_view());
    lemma_words(content);
    assert(tool_calls.deep_view().len() == tool_calls@.len());
}

/// A reply is accepted just where its first answer is by an assistant and says something, thinks
/// something or calls a tool. Otherwise the reason tells which of these is amiss.
pub proof fn reply_is_accepted_if_it_answers(
    response: CompletionResponse,
    reply: Result<api::CompletionResponse<CompletionResponse>, CompletionError>,
)
    requires
        call_ensures(
            api::CompletionResponse::<CompletionResponse>::try_from,
            (response,),
            reply,
        ),
    ensures
        response.choices@.len() == 0 ==> is_refused_for(reply, "Response contained no choices"@),
        response.choices@.len() > 0 && !(response.choices@[0].message is Assistant)
            ==> is_refused_for(reply, "Response did not contain a valid message or tool call"@),
        forall|
            content: Vec<AssistantContent>,
            reasoning: Option<String>,
            tool_calls: Vec<ToolCall>,
        |
            #[trigger] first_answer_is(response, content, reasoning, tool_calls) ==> {
                let parts = words_in(content@) + thoughts_in(reasoning) + tool_calls@.len();
                &&& parts > 0 ==> reply is Ok
                &&& parts == 0 ==> is_refused_for(
                    reply,
                    "Response contained no message or tool call (empty)"@,
                )
            },
{
    assert(response.choices.deep_view().len() == response.choices@.len());
    if response.choices@.len() > 0 {
        assert(response.choices.deep_view()[0] == response.choices@[0].deep_view());
    }
    assert forall|
        content: Vec<AssistantContent>,
        reasoning: Option<String>,
        tool_calls: Vec<ToolCall>,
    |
        #[trigger] first_answer_is(response, content, reasoning, tool_calls) implies ({
        let parts = words_in(content@) + thoughts_in(reasoning) + tool_calls@.len();
        &&& parts > 0 ==> reply is Ok
        &&& parts == 0 ==> is_refused_for(
            reply,
            "Response contained no message or tool call (empty)"@,
        )
    }) by {
        lemma_answer(response, content, reasoning, tool_calls);
    }
}

/// The answer of an accepted reply is what its first answer says in words, then the reasoning that
/// stands apart from it, then its tool calls: each in its order, and nothing else.
pub proof fn answer_is_words_thoughts_and_calls(
    response: CompletionResponse,
    reply: Result<api::CompletionResponse<CompletionResponse>, CompletionError>,
    content: Vec<AssistantContent>,
    reasoning: Option<String>,
    tool_calls: Vec<ToolCall>,
)
    requires
        call_ensures(
            api::CompletionResponse::<CompletionResponse>::try_from,
            (response,),
            reply,
        ),
        reply is Ok,
        first_answer_is(response, content, reasoning, tool_calls),
    ensures
        ({
            let parts = reply->Ok_0.choice@;
            let words = words_in(content@);
            let thoughts = thoughts_in(reasoning);
            &&& parts.len() == words + thoughts + tool_calls@.len()
            &&& forall|at: int|
                #![trigger content@[at]]
                0 <= at < content@.len() && says_something(content@[at]) ==> 0 <= words_in(
                    content@.take(at),
                ) < words && is_said(content@[at], parts[words_in(content@.take(at))])
            &&& thoughts == 1 ==> crate::receiving_laws::is_one_thought(
                parts[words],
                reasoning->0@,
            )
            &&& forall|i: int|
                #![trigger tool_calls@[i]]
                0 <= i < tool_calls@.len() ==> crate::receiving_laws::is_received_call_part(
                    tool_calls@[i],
                    parts[words + thoughts + i],
                )
        }),
{
    lemma_answer(response, content, reasoning, tool_calls);
    lemma_words(content);
    let parts = reply->Ok_0.choice;
    let given = crate::response::answer_parts(
        content.deep_view(),
        reasoning.deep_view(),
        tool_calls.deep_view(),
    );
    let words = words_in(content@);
    let thoughts = thoughts_in(reasoning);
    let said = crate::response::spoken_parts(content.deep_view());
    assert(parts.deep_view() == given);
    assert(parts.deep_view().len() == parts@.len());
    assert forall|at: int|
        #![trigger content@[at]]
        0 <= at < content@.len() && says_something(content@[at]) implies 0 <= words_in(
        content@.take(at),
    ) < words && is_said(content@[at], parts@[words_in(content@.take(at))]) by {
        let own = words_in(content@.take(at));
        assert(given[own] == said[own]);
        assert(parts.deep_view()[own] == parts@[own].deep_view());
    }
    if thoughts == 1 {
        assert(given[words] == message::AssistantContentView::Reasoning(
            message::single_step(reasoning->0@),
        ));
        assert(parts.deep_view()[words] == parts@[words].deep_view());
        crate::receiving_laws::lemma_one_thought(parts@[words], reasoning->0@);
    }
    assert forall|i: int|
        #![trigger tool_calls@[i]]
        0 <= i < tool_calls@.len() implies crate::receiving_laws::is_received_call_part(
        tool_calls@[i],
        parts@[words + thoughts + i],
    ) by {
        let at = words + thoughts + i;
        assert(tool_calls.deep_view()[i] == tool_calls@[i].deep_view());
        assert(parts.deep_view()[at] == parts@[at].deep_view());
        assert(given[at] == message::AssistantContentView::ToolCall(
            crate::to_chat::tool_call_to_chat(tool_calls@[i].deep_view()),
        ));
    }
}

/// An accepted reply comes with the tokens that the server counts: those of the prompt as input,
/// the rest as output, and none where the server counts none. The reply itself is kept.
pub proof fn tokens_are_those_of_the_reply(
    response: CompletionResponse,
    reply: Result<api::CompletionResponse<CompletionResponse>, CompletionError>,
)
    requires
        call_ensures(
            api::CompletionResponse::<CompletionResponse>::try_from,
            (response,),
            reply,
        ),
        response.usage matches Some(usage) ==> usage.prompt_tokens <= usage.total_tokens,
        reply is Ok,
    ensures
        response.usage matches Some(usage) ==> {
            &&& reply->Ok_0.usage.input_tokens == usage.prompt_tokens
            &&& reply->Ok_0.usage.output_tokens == usage.total_tokens - usage.prompt_tokens
            &&& reply->Ok_0.usage.total_tokens == usage.total_tokens
        },
        response.usage is None ==> {
            &&& reply->Ok_0.usage.input_tokens == 0
            &&& reply->Ok_0.usage.output_tokens == 0
            &&& reply->Ok_0.usage.total_tokens == 0
        },
        reply->Ok_0.raw_response == response,
{
}

/// A count of tokens is turned into the application's form: the prompt as input, and the rest as
/// output. A stream counts them in the same way.
pub proof fn tokens_are_counted(
    usage: Usage,
    counted: Option<api::Usage>,
    streamed: Option<api::Usage>,
)
    requires
        usage.prompt_tokens <= usage.total_tokens,
        call_ensures(Usage::token_usage, (&usage,), counted),
        call_ensures(
            StreamingCompletionResponse::token_usage,
            (&(StreamingCompletionResponse { usage }),),
            streamed,
        ),
    ensures
        counted is Some,
        counted->0.input_tokens == usage.prompt_tokens,
        counted->0.output_tokens == usage.total_tokens - usage.prompt_tokens,
        counted->0.total_tokens == usage.total_tokens,
        streamed == counted,
{
}

/// A new count of tokens counts none, on the server's side as on the application's.
pub proof fn new_count_is_zero(usage: Usage, default: Usage, counted: api::Usage)
    requires
        call_ensures(Usage::new, (), usage),
        call_ensures(<Usage as Default>::default, (), default),
        call_ensures(api::Usage::new, (), counted),
    ensures
        usage.prompt_tokens == 0 && usage.total_tokens == 0,
        default.prompt_tokens == 0 && default.total_tokens == 0,
        counted.input_tokens == 0 && counted.output_tokens == 0 && counted.total_tokens == 0,
{
}

/// A count of tokens makes sense where the prompt has no more tokens than there are in total.
pub proof fn count_makes_sense(usage: Usage, consistent: bool)
    requires
        call_ensures(Usage::is_consistent, (&usage,), consistent),
    ensures
        consistent <==> usage.prompt_tokens <= usage.total_tokens,
{
}

/// The count of tokens in a reply makes no sense just where the reply is accepted and counts more
/// tokens for the prompt than in total.
pub proof fn only_an_accepted_reply_is_counted(
    response: CompletionResponse,
    reply: Result<api::CompletionResponse<CompletionResponse>, CompletionError>,
    consistent: bool,
)
    requires
        call_ensures(
            api::CompletionResponse::<CompletionResponse>::try_from,
            (response,),
            reply,
        ),
        call_ensures(CompletionResponse::has_consistent_usage, (&response,), consistent),
    ensures
        !consistent <==> reply is Ok && (response.usage matches Some(usage) && usage.prompt_tokens
            > usage.total_tokens),
{
}

/// The count of tokens in a reply to a completion request is that of the answer in it.
pub proof fn only_an_answer_is_counted(reply: Reply, consistent: bool)
    requires
        call_ensures(Reply::is_consistent, (&reply,), consistent),
    ensures
        reply is Failure ==> consistent,
        reply matches Reply::Success(ApiResponse::Error(_)) ==> consistent,
        forall|response: CompletionResponse, own: bool|
            reply == Reply::Success(ApiResponse::Answer(response)) && #[trigger] call_ensures(
                CompletionResponse::has_consistent_usage,
                (&response,),
                own,
            ) ==> consistent == own,
{
}

/// A reply whose status does not speak of success fails with its text, whatever that spells.
pub proof fn failure_is_told_by_its_text(
    status: u16,
    text: String,
    decoded: Option<ApiResponse<CompletionResponse>>,
    reply: Option<Reply>,
    resolved: Result<api::CompletionResponse<CompletionResponse>, CompletionError>,
)
    requires
        status < 200 || 300 <= status,
        call_ensures(crate::model::sort_reply, (status, text, decoded), reply),
        reply is Some ==> call_ensures(crate::model::resolve_reply, (reply->0,), resolved),
    ensures
        reply is Some,
        resolved matches Err(CompletionError::ProviderError(reason)) && reason@ == text@,
{
}

/// A reply whose status speaks of success, and that spells an error, fails with the message of
/// that error.
pub proof fn error_is_told_by_its_message(
    status: u16,
    text: String,
    error: ApiErrorResponse,
    reply: Option<Reply>,
    resolved: Result<api::CompletionResponse<CompletionResponse>, CompletionError>,
)
    requires
        200 <= status < 300,
        call_ensures(
            crate::model::sort_reply,
            (status, text, Some(ApiResponse::Error(error))),
            reply,
        ),
        reply is Some ==> call_ensures(crate::model::resolve_reply, (reply->0,), resolved),
    ensures
        reply is Some,
        resolved matches Err(CompletionError::ProviderError(reason)) && reason@ == error.message@,
{
}

/// A reply whose status speaks of success, and that spells an answer, is taken for that answer; one
/// that spells nothing is no reply.
pub proof fn answer_is_taken_for_itself(
    status: u16,
    text: String,
    response: CompletionResponse,
    reply: Option<Reply>,
    resolved: Result<api::CompletionResponse<CompletionResponse>, CompletionError>,
    own: Result<api::CompletionResponse<CompletionResponse>, CompletionError>,
)
    requires
        200 <= status < 300,
        call_ensures(
            crate::model::sort_reply,
            (status, text, Some(ApiResponse::Answer(response))),
            reply,
        ),
        reply is Some ==> call_ensures(crate::model::resolve_reply, (reply->0,), resolved),
        call_ensures(api::CompletionResponse::<CompletionResponse>::try_from, (response,), own),
    ensures
        reply is Some,
        resolved is Ok <==> own is Ok,
        resolved is Ok ==> {
            &&& resolved->Ok_0.choice.deep_view() == own->Ok_0.choice.deep_view()
            &&& resolved->Ok_0.usage == own->Ok_0.usage
            &&& resolved->Ok_0.raw_response == response
        },
        resolved is Err ==> resolved->Err_0.deep_view() == own->Err_0.deep_view(),
{
}

/// A reply that speaks of success and spells nothing is no reply.
pub proof fn success_must_be_spelled(status: u16, text: String, reply: Option<Reply>, success: bool)
    requires
        call_ensures(crate::model::is_success_status, (status,), success),
        call_ensures(
            crate::model::sort_reply,
            (status, text, None::<ApiResponse<CompletionResponse>>),
            reply,
        ),
    ensures
        success <==> 200 <= status <= 299,
        success <==> reply is None,
{
}

/// An error of the server becomes an error of the provider, with the same message.
pub proof fn error_keeps_its_message(error: ApiErrorResponse, given: CompletionError)
    requires
        call_ensures(<CompletionError as From<ApiErrorResponse>>::from, (error,), given),
    ensures
        given matches CompletionError::ProviderError(reason) && reason@ == error.message@,
{
}

/// A reply tells its id, its model, its count of tokens and its answers.
pub proof fn reply_tells_what_it_holds(
    response: CompletionResponse,
    id: Option<String>,
    name: Option<String>,
    usage: Option<Usage>,
    answers: Vec<Choice>,
)
    requires
        call_ensures(CompletionResponse::get_response_id, (&response,), id),
        call_ensures(CompletionResponse::get_response_model_name, (&response,), name),
        call_ensures(CompletionResponse::get_usage, (&response,), usage),
        call_ensures(CompletionResponse::get_output_messages, (&response,), answers),
    ensures
        id is Some && id->0@ == response.id@,
        name is Some && name->0@ == response.model@,
        usage == response.usage,
        answers@.len() == response.choices@.len(),
        forall|i: int|
            0 <= i < answers@.len() ==> is_same_answer(
                #[trigger] answers@[i],
                response.choices@[i],
            ),
{
    assert(answers.deep_view().len() == answers@.len());
    assert(response.choices.deep_view().len() == response.choices@.len());
    assert forall|i: int| 0 <= i < answers@.len() implies is_same_answer(
        #[trigger] answers@[i],
        response.choices@[i],
    ) by {
        assert(answers.deep_view()[i] == answers@[i].deep_view());
        assert(response.choices.deep_view()[i] == response.choices@[i].deep_view());
    }
}

/// Two answers are the same.
pub open spec fn is_same_answer(a: Choice, b: Choice) -> bool {
    &&& a.index == b.index
    &&& a.message.deep_view() == b.message.deep_view()
    &&& a.logprobs == b.logprobs
    &&& a.finish_reason@ == b.finish_reason@
}

/// The text of a reply is the text that its last answer starts with, where that is a user message
/// that starts with text.
pub proof fn text_of_a_reply_is_what_a_user_says_last(
    response: CompletionResponse,
    text: Option<String>,
)
    requires
        call_ensures(CompletionResponse::get_text_response, (&response,), text),
    ensures
        ({
            let last = response.choices@.last().message;
            let says = response.choices@.len() > 0 && last is User && last->User_content@[0] is Text;
            &&& says ==> text is Some && text->0@ == last->User_content@[0]->text@
            &&& !says ==> text is None
        }),
{
    if response.choices@.len() > 0 && response.choices@.last().message is User {
        let parts = response.choices@.last().message->User_content;
        assert(parts.deep_view()[0] == parts@[0].deep_view());
    }
}

} // verus!
