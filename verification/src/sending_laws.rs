//! Laws of what the messages of an application are sent as, part by part.
use crate::api::CompletionError;
use crate::completion::{
    Message, MessageView, ToolCall, ToolChoice, ToolResultContentType, ToolType, UserContent,
};
use crate::message;
use crate::message::{
    AudioMediaType, DocumentSourceKind, ImageDetail, ImageMediaType, MessageError,
};
use crate::one_or_many::OneOrMany;
use vstd::prelude::*;

verus! {

/// None of the parts is a tool result.
pub open spec fn has_no_tool_result(parts: Seq<message::UserContent>) -> bool {
    forall|i: int| 0 <= i < parts.len() ==> !((#[trigger] parts[i]) is ToolResult)
}

/// Why a part that is no tool result cannot be sent; `None` where it can.
pub open spec fn reason_against(part: message::UserContent) -> Option<Seq<char>> {
    match part {
        message::UserContent::Image(image) => match image.data {
            DocumentSourceKind::Url(_) => None,
            DocumentSourceKind::Base64(_) => if image.media_type is None {
                Some("LlamaCpp Image URI must have media type"@)
            } else if image.detail is None {
                Some("LlamaCpp image URI must have image detail"@)
            } else {
                None
            },
            DocumentSourceKind::Raw(_) => Some("Raw files not supported, encode as base64 first"@),
            DocumentSourceKind::Unknown => Some("Document has no body"@),
            DocumentSourceKind::String(text) => Some(
                "Unsupported document type: String("@ + crate::text::quoted(text@) + ")"@,
            ),
        },
        message::UserContent::Document(document) => if document.data is Base64 {
            None
        } else {
            Some("Documents must be base64"@)
        },
        message::UserContent::Audio(audio) => if audio.data is Base64 {
            None
        } else {
            Some("Tool result is in unsupported format"@)
        },
        message::UserContent::Video(_) => Some("Tool result is in unsupported format"@),
        message::UserContent::Text(_) => None,
        message::UserContent::ToolResult(_) => None,
    }
}

/// The reason of a failure to convert a message.
pub open spec fn has_reason(
    sent: Result<Vec<Message>, MessageError>,
    reason: Seq<char>,
) -> bool {
    sent matches Err(MessageError::ConversionError(given)) && given@ == reason
}

proof fn lemma_no_tool_result(content: OneOrMany<message::UserContent>)
    requires
        has_no_tool_result(content@),
    ensures
        crate::to_server::tool_results(content.deep_view()).len() == 0,
{
    let f = |part: message::UserContentView|
        match part {
            message::UserContentView::ToolResult(result) => Some(result),
            _ => None,
        };
    let models = content.deep_view();
    assert forall|i: int| 0 <= i < models.len() implies f(#[trigger] models[i]) is None by {
        assert(!(content@[i] is ToolResult));
    }
    crate::lists::lemma_filter_map_drops(models, f);
}

proof fn lemma_reason(part: message::UserContent)
    requires
        !(part is ToolResult),
    ensures
        match reason_against(part) {
            Some(reason) => crate::to_server::user_content_to_server(part.deep_view()) == Err::<
                crate::completion::UserContentView,
                Seq<char>,
            >(reason),
            None => crate::to_server::user_content_to_server(part.deep_view()) is Ok,
        },
{
}

/// A user message without tool results is sent if every part of it can be, as one message without
/// a name and with as many parts.
pub proof fn sendable_parts_are_sent_together(
    content: OneOrMany<message::UserContent>,
    sent: Result<Vec<Message>, MessageError>,
)
    requires
        call_ensures(
            <Vec<Message> as TryFrom<message::Message>>::try_from,
            ((message::Message::User { content }),),
            sent,
        ),
        has_no_tool_result(content@),
        forall|i: int| 0 <= i < content@.len() ==> reason_against(#[trigger] content@[i]) is None,
    ensures
        sent is Ok,
        sent->Ok_0@.len() == 1,
        sent->Ok_0@[0] is User,
        sent->Ok_0@[0]->User_name is None,
        sent->Ok_0@[0]->User_content@.len() == content@.len(),
{
    lemma_no_tool_result(content);
    let models = content.deep_view();
    let f = |part: message::UserContentView| crate::to_server::user_content_to_server(part);
    if crate::outcome::try_each(models, f) is Err {
        let at = crate::outcome::lemma_try_each_fails_somewhere(models, f);
        lemma_reason(content@[at]);
        assert(reason_against(content@[at]) is None);
    }
    crate::outcome::lemma_try_each_values(models, f);
    let list = sent->Ok_0;
    assert(list.deep_view().len() == 1);
    assert(list.deep_view()[0] == list@[0].deep_view());
    let parts = list@[0]->User_content;
    assert(parts.deep_view().len() == models.len());
    assert(parts.deep_view().len() == parts@.len());
}

/// The first part that cannot be sent keeps a user message without tool results from being sent,
/// for the reason that stands against that part.
pub proof fn first_bad_part_gives_the_reason(
    content: OneOrMany<message::UserContent>,
    sent: Result<Vec<Message>, MessageError>,
    at: int,
    reason: Seq<char>,
)
    requires
        call_ensures(
            <Vec<Message> as TryFrom<message::Message>>::try_from,
            ((message::Message::User { content }),),
            sent,
        ),
        has_no_tool_result(content@),
        0 <= at < content@.len(),
        reason_against(content@[at]) == Some(reason),
        forall|i: int| 0 <= i < at ==> reason_against(#[trigger] content@[i]) is None,
    ensures
        has_reason(sent, reason),
{
    lemma_no_tool_result(content);
    let models = content.deep_view();
    let f = |part: message::UserContentView| crate::to_server::user_content_to_server(part);
    assert(!(content@[at] is ToolResult));
    lemma_reason(content@[at]);
    assert forall|i: int| 0 <= i < at implies f(#[trigger] models[i]) is Ok by {
        assert(!(content@[i] is ToolResult));
        lemma_reason(content@[i]);
        assert(reason_against(content@[i]) is None);
    }
    crate::outcome::lemma_try_each_err(models, f, at, reason);
}

/// The part of a user message without tool results that was sent for its part `at`.
pub open spec fn sent_part(sent: Result<Vec<Message>, MessageError>, at: int) -> UserContent {
    sent->Ok_0@[0]->User_content@[at]
}

proof fn lemma_part_is_sent(
    content: OneOrMany<message::UserContent>,
    sent: Result<Vec<Message>, MessageError>,
    at: int,
)
    requires
        call_ensures(
            <Vec<Message> as TryFrom<message::Message>>::try_from,
            ((message::Message::User { content }),),
            sent,
        ),
        has_no_tool_result(content@),
        sent is Ok,
        0 <= at < content@.len(),
    ensures
        crate::to_server::user_content_to_server(content@[at].deep_view()) == Ok::<
            crate::completion::UserContentView,
            Seq<char>,
        >(sent_part(sent, at).deep_view()),
{
    lemma_no_tool_result(content);
    let models = content.deep_view();
    let f = |part: message::UserContentView| crate::to_server::user_content_to_server(part);
    crate::outcome::lemma_try_each_values(models, f);
    let values = crate::outcome::try_each(models, f)->Ok_0;
    let list = sent->Ok_0;
    assert(list.deep_view().len() == 1);
    assert(list.deep_view()[0] == list@[0].deep_view());
    let parts = list@[0]->User_content;
    assert(parts.deep_view() == values);
    assert(f(models[at]) == Ok::<crate::completion::UserContentView, Seq<char>>(values[at]));
    assert(values[at] == parts@[at].deep_view());
}

/// Text is sent as the same text.
pub proof fn text_is_sent_unchanged(
    content: OneOrMany<message::UserContent>,
    sent: Result<Vec<Message>, MessageError>,
    at: int,
    text: message::Text,
)
    requires
        call_ensures(
            <Vec<Message> as TryFrom<message::Message>>::try_from,
            ((message::Message::User { content }),),
            sent,
        ),
        has_no_tool_result(content@),
        sent is Ok,
        0 <= at < content@.len(),
        content@[at] == message::UserContent::Text(text),
    ensures
        sent_part(sent, at) matches UserContent::Text { text: given } && given@ == text.text@,
{
    lemma_part_is_sent(content, sent, at);
}

/// A document in base 64 is sent as text that holds its data.
pub proof fn document_is_sent_as_its_data(
    content: OneOrMany<message::UserContent>,
    sent: Result<Vec<Message>, MessageError>,
    at: int,
    document: message::Document,
    data: String,
)
    requires
        call_ensures(
            <Vec<Message> as TryFrom<message::Message>>::try_from,
            ((message::Message::User { content }),),
            sent,
        ),
        has_no_tool_result(content@),
        sent is Ok,
        0 <= at < content@.len(),
        content@[at] == message::UserContent::Document(document),
        document.data == DocumentSourceKind::Base64(data),
    ensures
        sent_part(sent, at) matches UserContent::Text { text } && text@ == data@,
{
    lemma_part_is_sent(content, sent, at);
}

/// Audio in base 64 is sent with its data and its own format, which is MP3 where it has none.
pub proof fn audio_is_sent_with_its_format(
    content: OneOrMany<message::UserContent>,
    sent: Result<Vec<Message>, MessageError>,
    at: int,
    audio: message::Audio,
    data: String,
)
    requires
        call_ensures(
            <Vec<Message> as TryFrom<message::Message>>::try_from,
            ((message::Message::User { content }),),
            sent,
        ),
        has_no_tool_result(content@),
        sent is Ok,
        0 <= at < content@.len(),
        content@[at] == message::UserContent::Audio(audio),
        audio.data == DocumentSourceKind::Base64(data),
    ensures
        sent_part(sent, at) is Audio,
        sent_part(sent, at)->input_audio.data@ == data@,
        audio.media_type is Some ==> Some(sent_part(sent, at)->input_audio.format)
            == audio.media_type,
        audio.media_type is None ==> sent_part(sent, at)->input_audio.format == AudioMediaType::MP3,
{
    lemma_part_is_sent(content, sent, at);
}

/// An image at a URL is sent with that URL, and is looked at as closely as it asks for, or as the
/// server likes where it does not ask.
pub proof fn image_at_a_url_is_sent_with_it(
    content: OneOrMany<message::UserContent>,
    sent: Result<Vec<Message>, MessageError>,
    at: int,
    image: message::Image,
    url: String,
)
    requires
        call_ensures(
            <Vec<Message> as TryFrom<message::Message>>::try_from,
            ((message::Message::User { content }),),
            sent,
        ),
        has_no_tool_result(content@),
        sent is Ok,
        0 <= at < content@.len(),
        content@[at] == message::UserContent::Image(image),
        image.data == DocumentSourceKind::Url(url),
    ensures
        sent_part(sent, at) is Image,
        sent_part(sent, at)->image_url.url@ == url@,
        image.detail is Some ==> Some(sent_part(sent, at)->image_url.detail) == image.detail,
        image.detail is None ==> sent_part(sent, at)->image_url.detail == ImageDetail::Auto,
{
    lemma_part_is_sent(content, sent, at);
}

/// The name of an image format in a MIME type.
pub open spec fn subtype(format: ImageMediaType) -> Seq<char> {
    match format {
        ImageMediaType::JPEG => "jpeg"@,
        ImageMediaType::PNG => "png"@,
        ImageMediaType::GIF => "gif"@,
        ImageMediaType::WEBP => "webp"@,
        ImageMediaType::HEIC => "heic"@,
        ImageMediaType::HEIF => "heif"@,
        ImageMediaType::SVG => "svg+xml"@,
    }
}

/// The MIME type of an image format is its name behind `image/`.
pub proof fn mime_type_names_the_format(format: ImageMediaType, mime: &'static str)
    requires
        call_ensures(ImageMediaType::to_mime_type, (&format,), mime),
    ensures
        mime@ == "image/"@ + subtype(format),
{
    reveal_strlit("image/");
    reveal_strlit("jpeg");
    reveal_strlit("png");
    reveal_strlit("gif");
    reveal_strlit("webp");
    reveal_strlit("heic");
    reveal_strlit("heif");
    reveal_strlit("svg+xml");
    reveal_strlit("image/jpeg");
    reveal_strlit("image/png");
    reveal_strlit("image/gif");
    reveal_strlit("image/webp");
    reveal_strlit("image/heic");
    reveal_strlit("image/heif");
    reveal_strlit("image/svg+xml");
    assert(mime@ =~= "image/"@ + subtype(format));
}

/// An image in base 64 is sent as a URL that names its own format and holds its data, and is
/// looked at as closely as it asks for.
pub proof fn image_data_is_sent_under_its_format(
    content: OneOrMany<message::UserContent>,
    sent: Result<Vec<Message>, MessageError>,
    at: int,
    image: message::Image,
    data: String,
    format: ImageMediaType,
)
    requires
        call_ensures(
            <Vec<Message> as TryFrom<message::Message>>::try_from,
            ((message::Message::User { content }),),
            sent,
        ),
        has_no_tool_result(content@),
        sent is Ok,
        0 <= at < content@.len(),
        content@[at] == message::UserContent::Image(image),
        image.data == DocumentSourceKind::Base64(data),
        image.media_type == Some(format),
    ensures
        sent_part(sent, at) is Image,
        sent_part(sent, at)->image_url.url@ == "data:image/"@ + subtype(format) + ";base64,"@
            + data@,
        Some(sent_part(sent, at)->image_url.detail) == image.detail,
{
    lemma_part_is_sent(content, sent, at);
    reveal_strlit("data:image/");
    reveal_strlit("data:");
    reveal_strlit("jpeg");
    reveal_strlit("png");
    reveal_strlit("gif");
    reveal_strlit("webp");
    reveal_strlit("heic");
    reveal_strlit("heif");
    reveal_strlit("svg+xml");
    reveal_strlit("image/jpeg");
    reveal_strlit("image/png");
    reveal_strlit("image/gif");
    reveal_strlit("image/webp");
    reveal_strlit("image/heic");
    reveal_strlit("image/heif");
    reveal_strlit("image/svg+xml");
    assert("data:"@ + message::image_mime_type(format) =~= "data:image/"@ + subtype(format));
}

/// Images of different formats are sent under different URLs.
pub proof fn formats_are_told_apart(
    content: OneOrMany<message::UserContent>,
    sent: Result<Vec<Message>, MessageError>,
    at: int,
    image: message::Image,
    data: String,
    format: ImageMediaType,
    other: int,
    other_image: message::Image,
    other_data: String,
    other_format: ImageMediaType,
)
    requires
        call_ensures(
            <Vec<Message> as TryFrom<message::Message>>::try_from,
            ((message::Message::User { content }),),
            sent,
        ),
        has_no_tool_result(content@),
        sent is Ok,
        0 <= at < content@.len(),
        content@[at] == message::UserContent::Image(image),
        image.data == DocumentSourceKind::Base64(data),
        image.media_type == Some(format),
        0 <= other < content@.len(),
        content@[other] == message::UserContent::Image(other_image),
        other_image.data == DocumentSourceKind::Base64(other_data),
        other_image.media_type == Some(other_format),
        format != other_format,
    ensures
        sent_part(sent, at)->image_url.url@ != sent_part(sent, other)->image_url.url@,
{
    image_data_is_sent_under_its_format(content, sent, at, image, data, format);
    image_data_is_sent_under_its_format(
        content,
        sent,
        other,
        other_image,
        other_data,
        other_format,
    );
    let a = sent_part(sent, at)->image_url.url@;
    let b = sent_part(sent, other)->image_url.url@;
    reveal_strlit("data:image/");
    reveal_strlit("jpeg");
    reveal_strlit("png");
    reveal_strlit("gif");
    reveal_strlit("webp");
    reveal_strlit("heic");
    reveal_strlit("heif");
    reveal_strlit("svg+xml");
    assert(a[11] == subtype(format)[0]);
    assert(b[11] == subtype(other_format)[0]);
    if format == ImageMediaType::HEIC || format == ImageMediaType::HEIF {
        assert(a[14] == subtype(format)[3]);
    }
    if other_format == ImageMediaType::HEIC || other_format == ImageMediaType::HEIF {
        assert(b[14] == subtype(other_format)[3]);
    }
}

/// A part of a user message that is a tool result.
pub open spec fn is_tool_result(part: message::UserContent) -> bool {
    part is ToolResult
}

/// A tool result that holds nothing but text.
pub open spec fn is_all_text(result: message::ToolResult) -> bool {
    forall|i: int| 0 <= i < result.content@.len() ==> (#[trigger] result.content@[i]) is Text
}

proof fn lemma_tool_results(content: OneOrMany<message::UserContent>)
    ensures
        ({
            let results = crate::to_server::tool_results(content.deep_view());
            let p = |part: message::UserContent| is_tool_result(part);
            &&& results.len() == crate::lists::how_many(content@, p)
            &&& forall|at: int|
                #![trigger content@[at]]
                0 <= at < content@.len() && content@[at] is ToolResult
                    ==> crate::lists::how_many(content@.take(at), p) < results.len()
                    && results[crate::lists::how_many(content@.take(at), p) as int]
                    == content@[at]->ToolResult_0.deep_view()
        }),
{
    let f = |part: message::UserContentView|
        match part {
            message::UserContentView::ToolResult(result) => Some(result),
            _ => None,
        };
    let p = |part: message::UserContent| is_tool_result(part);
    let models = content.deep_view();
    assert forall|i: int| 0 <= i < content@.len() implies (p(#[trigger] content@[i]) <==> f(
        models[i],
    ) is Some) by {
        assert(models[i] == content@[i].deep_view());
    }
    crate::lists::lemma_filter_map_counts(content@, p, models, f);
    assert forall|at: int|
        #![trigger content@[at]]
        0 <= at < content@.len() && content@[at] is ToolResult implies crate::lists::how_many(
        content@.take(at),
        p,
    ) < crate::to_server::tool_results(models).len() && crate::to_server::tool_results(
        models,
    )[crate::lists::how_many(content@.take(at), p) as int]
        == content@[at]->ToolResult_0.deep_view() by {
        assert(p(content@[at]));
        assert(models[at] == content@[at].deep_view());
    }
}

proof fn lemma_result_content(result: message::ToolResult)
    ensures
        is_all_text(result) ==> crate::to_server::tool_result_to_server(result.deep_view()) is Ok,
        !is_all_text(result) ==> crate::to_server::tool_result_to_server(result.deep_view()) == Err::<
            MessageView,
            Seq<char>,
        >("Tool result content does not support non-text"@),
        crate::to_server::tool_result_to_server(result.deep_view()) matches Ok(message) ==> {
            &&& message is ToolResult
            &&& message->tool_call_id == result.id@
            &&& message->ToolResult_content.len() == result.content@.len()
            &&& forall|i: int|
                #![trigger result.content@[i]]
                0 <= i < result.content@.len() ==> result.content@[i] is Text
                    && message->ToolResult_content[i].kind == ToolResultContentType::Text
                    && message->ToolResult_content[i].text == result.content@[i]->Text_0.text@
        },
{
    let models = result.deep_view().content;
    let f = |content: message::ToolResultContentView|
        crate::to_server::tool_result_content_to_server(content);
    assert(models == result.content.deep_view());
    if crate::outcome::try_each(models, f) is Err {
        let at = crate::outcome::lemma_try_each_fails_somewhere(models, f);
        assert(models[at] == result.content@[at].deep_view());
        assert(!(result.content@[at] is Text));
    } else {
        crate::outcome::lemma_try_each_values(models, f);
        let values = crate::outcome::try_each(models, f)->Ok_0;
        assert forall|i: int|
            #![trigger result.content@[i]]
            0 <= i < result.content@.len() implies result.content@[i] is Text && values[i].kind
            == ToolResultContentType::Text && values[i].text == result.content@[i]->Text_0.text@ by {
            assert(models[i] == result.content@[i].deep_view());
            assert(f(models[i]) == Ok::<crate::completion::ToolResultContentView, Seq<char>>(
                values[i],
            ));
        }
    }
}

/// A user message with tool results is sent if every one of them is all text, whatever else it
/// holds, and else is refused.
pub proof fn only_text_results_are_sent(
    content: OneOrMany<message::UserContent>,
    sent: Result<Vec<Message>, MessageError>,
)
    requires
        call_ensures(
            <Vec<Message> as TryFrom<message::Message>>::try_from,
            ((message::Message::User { content }),),
            sent,
        ),
        exists|i: int| 0 <= i < content@.len() && (#[trigger] content@[i]) is ToolResult,
    ensures
        (forall|i: int|
            0 <= i < content@.len() && (#[trigger] content@[i]) is ToolResult ==> is_all_text(
                content@[i]->ToolResult_0,
            )) ==> sent is Ok,
        (exists|i: int|
            0 <= i < content@.len() && (#[trigger] content@[i]) is ToolResult && !is_all_text(
                content@[i]->ToolResult_0,
            )) ==> has_reason(sent, "Tool result content does not support non-text"@),
{
    lemma_tool_results(content);
    let results = crate::to_server::tool_results(content.deep_view());
    let f = |result: message::ToolResultView| crate::to_server::tool_result_to_server(result);
    let g = |part: message::UserContentView|
        match part {
            message::UserContentView::ToolResult(result) => Some(result),
            _ => None,
        };
    assert(results == content.deep_view().filter_map(g));
    let some = choose|i: int| 0 <= i < content@.len() && (#[trigger] content@[i]) is ToolResult;
    assert(content@[some] is ToolResult);
    assert(results.len() > 0);
    if crate::outcome::try_each(results, f) is Err {
        let at = crate::outcome::lemma_try_each_fails_somewhere(results, f);
        assert(results.contains(results[at]));
        let i = crate::lists::lemma_filter_map_source(content.deep_view(), g, results[at]);
        assert(content.deep_view()[i] == content@[i].deep_view());
        assert(content@[i] is ToolResult);
        lemma_result_content(content@[i]->ToolResult_0);
        assert(!is_all_text(content@[i]->ToolResult_0));
    } else {
        crate::outcome::lemma_try_each_values(results, f);
        assert forall|i: int|
            0 <= i < content@.len() && (#[trigger] content@[i]) is ToolResult implies is_all_text(
            content@[i]->ToolResult_0,
        ) by {
            let k = crate::lists::how_many(
                content@.take(i),
                |part: message::UserContent| is_tool_result(part),
            ) as int;
            assert(f(results[k]) == Ok::<MessageView, Seq<char>>(
                crate::outcome::try_each(results, f)->Ok_0[k],
            ));
            lemma_result_content(content@[i]->ToolResult_0);
        }
    }
}

/// Tool results are sent as one message each, in their order: as many messages as there are
/// results, each for the call with the id of its result, and with the texts of its result.
pub proof fn results_are_sent_in_order(
    content: OneOrMany<message::UserContent>,
    sent: Result<Vec<Message>, MessageError>,
    at: int,
    result: message::ToolResult,
)
    requires
        call_ensures(
            <Vec<Message> as TryFrom<message::Message>>::try_from,
            ((message::Message::User { content }),),
            sent,
        ),
        sent is Ok,
        0 <= at < content@.len(),
        content@[at] == message::UserContent::ToolResult(result),
    ensures
        ({
            let p = |part: message::UserContent| is_tool_result(part);
            let own = crate::lists::how_many(content@.take(at), p) as int;
            let messages = sent->Ok_0@;
            &&& messages.len() == crate::lists::how_many(content@, p)
            &&& 0 <= own < messages.len()
            &&& messages[own] is ToolResult
            &&& messages[own]->tool_call_id@ == result.id@
            &&& messages[own]->ToolResult_content@.len() == result.content@.len()
            &&& forall|i: int|
                #![trigger result.content@[i]]
                0 <= i < result.content@.len() ==> result.content@[i] is Text
                    && messages[own]->ToolResult_content@[i].text@
                    == result.content@[i]->Text_0.text@
        }),
{
    lemma_tool_results(content);
    let results = crate::to_server::tool_results(content.deep_view());
    let f = |result: message::ToolResultView| crate::to_server::tool_result_to_server(result);
    let p = |part: message::UserContent| is_tool_result(part);
    let own = crate::lists::how_many(content@.take(at), p) as int;
    assert(content@[at] is ToolResult);
    crate::outcome::lemma_try_each_values(results, f);
    let list = sent->Ok_0;
    let values = crate::outcome::try_each(results, f)->Ok_0;
    assert(list.deep_view() == values);
    assert(list.deep_view().len() == list@.len());
    assert(f(results[own]) == Ok::<MessageView, Seq<char>>(values[own]));
    assert(values[own] == list@[own].deep_view());
    lemma_result_content(result);
    let parts = list@[own]->ToolResult_content;
    assert(parts.deep_view().len() == parts@.len());
    assert forall|i: int|
        #![trigger result.content@[i]]
        0 <= i < result.content@.len() implies result.content@[i] is Text && parts@[i].text@
        == result.content@[i]->Text_0.text@ by {
        assert(parts.deep_view()[i] == parts@[i].deep_view());
    }
}

/// A part of an assistant message that is a tool call.
pub open spec fn is_tool_call(part: message::AssistantContent) -> bool {
    part is ToolCall
}

/// A part of an assistant message that is text.
pub open spec fn is_text(part: message::AssistantContent) -> bool {
    part is Text
}

/// The steps of reasoning among the parts of an assistant message, the steps of one part on lines
/// of their own.
pub open spec fn thoughts(parts: Seq<message::AssistantContent>) -> Seq<Seq<char>>
    decreases parts.len(),
{
    if parts.len() == 0 {
        Seq::empty()
    } else {
        match parts.last() {
            message::AssistantContent::Reasoning(steps) => thoughts(parts.drop_last()).push(
                crate::text::joined(steps.reasoning.deep_view(), "\n"@),
            ),
            _ => thoughts(parts.drop_last()),
        }
    }
}

proof fn lemma_thoughts(parts: Seq<message::AssistantContent>)
    ensures
        crate::to_server::reasoning_of(
            parts.map_values(|part: message::AssistantContent| part.deep_view()),
        ) == thoughts(parts),
    decreases parts.len(),
{
    let models = parts.map_values(|part: message::AssistantContent| part.deep_view());
    if parts.len() > 0 {
        lemma_thoughts(parts.drop_last());
        assert(models.drop_last() == parts.drop_last().map_values(
            |part: message::AssistantContent| part.deep_view(),
        ));
    }
}

proof fn lemma_assistant_sent(
    id: Option<String>,
    content: OneOrMany<message::AssistantContent>,
    sent: Result<Vec<Message>, MessageError>,
)
    requires
        call_ensures(
            <Vec<Message> as TryFrom<message::Message>>::try_from,
            ((message::Message::Assistant { id, content }),),
            sent,
        ),
    ensures
        sent is Ok,
        sent->Ok_0@.len() == 1,
        sent->Ok_0@[0] is Assistant,
        sent->Ok_0@[0].deep_view() == crate::to_server::assistant_to_server(content.deep_view()),
{
    let list = sent->Ok_0;
    assert(list.deep_view().len() == 1);
    assert(list.deep_view()[0] == list@[0].deep_view());
}

/// An assistant message is sent as one message of which refusal, reasoning and name are not set.
pub proof fn assistant_is_sent_as_one_message(
    id: Option<String>,
    content: OneOrMany<message::AssistantContent>,
    sent: Result<Vec<Message>, MessageError>,
)
    requires
        call_ensures(
            <Vec<Message> as TryFrom<message::Message>>::try_from,
            ((message::Message::Assistant { id, content }),),
            sent,
        ),
    ensures
        sent is Ok,
        sent->Ok_0@.len() == 1,
        sent->Ok_0@[0] is Assistant,
        sent->Ok_0@[0]->refusal is None,
        sent->Ok_0@[0]->Assistant_reasoning is None,
        sent->Ok_0@[0]->Assistant_name is None,
{
    lemma_assistant_sent(id, content, sent);
}

/// The tool calls of an assistant message are all sent, in their order, each with its id, name and
/// arguments.
pub proof fn tool_calls_are_sent_in_order(
    id: Option<String>,
    content: OneOrMany<message::AssistantContent>,
    sent: Result<Vec<Message>, MessageError>,
)
    requires
        call_ensures(
            <Vec<Message> as TryFrom<message::Message>>::try_from,
            ((message::Message::Assistant { id, content }),),
            sent,
        ),
    ensures
        ({
            let p = |part: message::AssistantContent| is_tool_call(part);
            let calls = sent->Ok_0@[0]->tool_calls@;
            &&& calls.len() == crate::lists::how_many(content@, p)
            &&& forall|at: int|
                #![trigger content@[at]]
                0 <= at < content@.len() && content@[at] is ToolCall ==> {
                    let call = content@[at]->ToolCall_0;
                    let own = crate::lists::how_many(content@.take(at), p) as int;
                    &&& 0 <= own < calls.len()
                    &&& calls[own].id@ == call.id@
                    &&& calls[own].kind == ToolType::Function
                    &&& calls[own].function.name@ == call.function.name@
                    &&& calls[own].function.arguments == call.function.arguments
                }
        }),
{
    lemma_assistant_sent(id, content, sent);
    let list = sent->Ok_0@[0]->tool_calls;
    let f = |part: message::AssistantContentView|
        match part {
            message::AssistantContentView::ToolCall(call) => Some(
                crate::to_server::tool_call_to_server(call),
            ),
            _ => None,
        };
    let p = |part: message::AssistantContent| is_tool_call(part);
    let models = content.deep_view();
    assert(list.deep_view() == models.filter_map(f));
    assert forall|i: int| 0 <= i < content@.len() implies (p(#[trigger] content@[i]) <==> f(
        models[i],
    ) is Some) by {
        assert(models[i] == content@[i].deep_view());
    }
    crate::lists::lemma_filter_map_counts(content@, p, models, f);
    assert(list.deep_view().len() == list@.len());
    assert forall|at: int|
        #![trigger content@[at]]
        0 <= at < content@.len() && content@[at] is ToolCall implies ({
        let call = content@[at]->ToolCall_0;
        let own = crate::lists::how_many(content@.take(at), p) as int;
        &&& 0 <= own < list@.len()
        &&& list@[own].id@ == call.id@
        &&& list@[own].kind == ToolType::Function
        &&& list@[own].function.name@ == call.function.name@
        &&& list@[own].function.arguments == call.function.arguments
    }) by {
        let own = crate::lists::how_many(content@.take(at), p) as int;
        assert(p(content@[at]));
        assert(models[at] == content@[at].deep_view());
        assert(list.deep_view()[own] == list@[own].deep_view());
    }
}

/// All reasoning of an assistant message is sent as the first part of its content, each thought on
/// lines of its own, if there is any. Behind it come the texts, in their order and unchanged, and
/// nothing else.
pub proof fn reasoning_and_texts_are_sent(
    id: Option<String>,
    content: OneOrMany<message::AssistantContent>,
    sent: Result<Vec<Message>, MessageError>,
)
    requires
        call_ensures(
            <Vec<Message> as TryFrom<message::Message>>::try_from,
            ((message::Message::Assistant { id, content }),),
            sent,
        ),
    ensures
        ({
            let p = |part: message::AssistantContent| is_text(part);
            let parts = sent->Ok_0@[0]->Assistant_content@;
            let reasons: int = if thoughts(content@).len() > 0 {
                1
            } else {
                0
            };
            &&& parts.len() == reasons + crate::lists::how_many(content@, p)
            &&& reasons == 1 ==> parts[0] is Reasoning && parts[0]->reasoning@
                == crate::text::joined(thoughts(content@), "\n"@)
            &&& forall|at: int|
                #![trigger content@[at]]
                0 <= at < content@.len() && content@[at] is Text ==> {
                    let own = reasons + crate::lists::how_many(content@.take(at), p);
                    &&& 0 <= own < parts.len()
                    &&& parts[own] is Text
                    &&& parts[own]->text@ == content@[at]->Text_0.text@
                }
        }),
{
    lemma_assistant_sent(id, content, sent);
    let list = sent->Ok_0@[0]->Assistant_content;
    let f = |part: message::AssistantContentView|
        match part {
            message::AssistantContentView::Text(text) => Some(
                crate::completion::AssistantContentView::Text { text },
            ),
            _ => None,
        };
    let p = |part: message::AssistantContent| is_text(part);
    let models = content.deep_view();
    let texts = models.filter_map(f);
    assert(models =~= content@.map_values(|part: message::AssistantContent| part.deep_view()));
    lemma_thoughts(content@);
    assert(list.deep_view() == crate::to_server::assistant_contents_to_server(models));
    assert(texts == crate::to_server::texts_of(models));
    assert forall|i: int| 0 <= i < content@.len() implies (p(#[trigger] content@[i]) <==> f(
        models[i],
    ) is Some) by {
        assert(models[i] == content@[i].deep_view());
    }
    crate::lists::lemma_filter_map_counts(content@, p, models, f);
    assert(list.deep_view().len() == list@.len());
    let reasons: int = if thoughts(content@).len() > 0 {
        1
    } else {
        0
    };
    if reasons == 1 {
        assert(list.deep_view()[0] == list@[0].deep_view());
    }
    assert forall|at: int|
        #![trigger content@[at]]
        0 <= at < content@.len() && content@[at] is Text implies ({
        let own = reasons + crate::lists::how_many(content@.take(at), p);
        &&& 0 <= own < list@.len()
        &&& list@[own] is Text
        &&& list@[own]->text@ == content@[at]->Text_0.text@
    }) by {
        let before = crate::lists::how_many(content@.take(at), p) as int;
        assert(p(content@[at]));
        assert(models[at] == content@[at].deep_view());
        assert(list.deep_view()[reasons + before] == texts[before]);
        assert(list.deep_view()[reasons + before] == list@[reasons + before].deep_view());
    }
}

/// A tool call is sent with its id, name and arguments.
pub proof fn tool_call_is_sent_whole(call: message::ToolCall, sent: ToolCall)
    requires
        call_ensures(<ToolCall as From<message::ToolCall>>::from, (call,), sent),
    ensures
        sent.id@ == call.id@,
        sent.kind == ToolType::Function,
        sent.function.name@ == call.function.name@,
        sent.function.arguments == call.function.arguments,
{
}

/// A choice of tools is sent as it is, unless it names tools: then it is refused.
pub proof fn tool_choice_is_sent_unless_by_name(
    choice: message::ToolChoice,
    sent: Result<ToolChoice, CompletionError>,
)
    requires
        call_ensures(<ToolChoice as TryFrom<message::ToolChoice>>::try_from, (choice,), sent),
    ensures
        choice is Auto ==> sent == Ok::<ToolChoice, CompletionError>(ToolChoice::Auto),
        choice is Never ==> sent == Ok::<ToolChoice, CompletionError>(ToolChoice::Never),
        choice is Required ==> sent == Ok::<ToolChoice, CompletionError>(ToolChoice::Required),
        choice is Specific ==> (sent matches Err(CompletionError::ProviderError(reason)) && reason@
            == "Provider doesn't support only using specific tools"@),
{
}

} // verus!
