use vstd::prelude::*;

use crate::infrastructure::ai::contract_fixtures::{
    is_success_status, nonblank, nonblank_exec, ProviderError, ProviderErrorKind,
};
pub use crate::infrastructure::ai::openai::{map_status, map_status_spec};
use crate::application::translation::prompt_compiler::CompiledPrompt;
use crate::infrastructure::ai::openai::{
    layered_messages, layered_messages_spec, strict_schema_members_spec,
};
use crate::json::{
    json_member, json_object, json_text, json_type_object, json_view, members_view, step_first,
    step_first_exec, step_member, step_member_exec, text_of, JsonValue, JsonView,
};

verus! {

/// The body of a chat-completions request: the layered prompt as messages, the model, and
/// a strict JSON-schema response format.
pub open spec fn request_body_spec(model: Seq<char>, prompt: CompiledPrompt) -> JsonView {
    JsonView::Members(
        seq![
            ("messages"@, layered_messages_spec(prompt)),
            ("model"@, JsonView::Text(model)),
            (
                "response_format"@,
                JsonView::Members(
                    seq![
                        ("json_schema"@, JsonView::Members(strict_schema_members_spec())),
                        ("type"@, JsonView::Text("json_schema"@)),
                    ],
                ),
            ),
        ],
    )
}

/// The body of a chat-completions request for `model` and `prompt`.
pub fn request_body(model: &str, prompt: &CompiledPrompt) -> (body: JsonValue)
    ensures
        json_view(body) == request_body_spec(model@, *prompt),
{
    let schema_members = vec![
        json_member("name", json_text("adaptive_translation")),
        json_member("schema", json_type_object("object")),
        json_member("strict", JsonValue::Bool(true)),
    ];
    assert(members_view(schema_members@) =~= strict_schema_members_spec());
    let format_members = vec![
        json_member("json_schema", json_object(schema_members)),
        json_member("type", json_text("json_schema")),
    ];
    assert(members_view(format_members@) =~= seq![
        ("json_schema"@, JsonView::Members(strict_schema_members_spec())),
        ("type"@, JsonView::Text("json_schema"@)),
    ]);
    let members = vec![
        json_member("messages", layered_messages(prompt)),
        json_member("model", json_text(model)),
        json_member("response_format", json_object(format_members)),
    ];
    assert(members_view(members@) =~= seq![
        ("messages"@, layered_messages_spec(*prompt)),
        ("model"@, JsonView::Text(model@)),
        ("response_format"@, json_view(members@[2].1)),
    ]);
    json_object(members)
}

/// The non-blank text at `/choices/0/message/content`.
pub open spec fn message_content_spec(value: JsonValue) -> Option<Seq<char>> {
    nonblank(
        text_of(
            step_member(
                step_member(step_first(step_member(Some(value), "choices"@)), "message"@),
                "content"@,
            ),
        ),
    )
}

/// Reads the first choice's message content, when it is not blank.
pub fn message_content(value: &JsonValue) -> (text: Option<&str>)
    ensures
        match message_content_spec(*value) {
            Some(t) => text matches Some(x) && x@ == t,
            None => text is None,
        },
{
    let choice = step_first_exec(step_member_exec(Some(value), "choices"));
    let content = step_member_exec(step_member_exec(choice, "message"), "content");
    let text = match content {
        Some(c) => c.as_str(),
        None => None,
    };
    nonblank_exec(text)
}

/// What a chat completions reply yields before decoding: a failure for an unsuccessful
/// status, an unreadable body (`None`) or an empty message, else the message content.
pub open spec fn response_text_spec(status: u16, body: Option<JsonValue>) -> Result<
    Seq<char>,
    ProviderError,
> {
    if !is_success_status(status) {
        Err(ProviderError::of_kind(map_status_spec(status)))
    } else {
        match body {
            None => Err(ProviderError::of_kind(ProviderErrorKind::ResponseMalformed)),
            Some(value) => match message_content_spec(value) {
                None => Err(ProviderError::of_kind(ProviderErrorKind::ResponseEmpty)),
                Some(t) => Ok(t),
            },
        }
    }
}

/// Reads a chat completions reply: its status, then its body (`None` when it was not JSON).
pub fn response_text(status: u16, body: Option<&JsonValue>) -> (text: Result<&str, ProviderError>)
    ensures
        match response_text_spec(
            status,
            match body {
                Some(b) => Some(*b),
                None => None,
            },
        ) {
            Ok(t) => text matches Ok(x) && x@ == t,
            Err(e) => text == Err::<&str, ProviderError>(e),
        },
{
    if !(200 <= status && status <= 299) {
        return Err(ProviderError::new(map_status(status)));
    }
    match body {
        None => Err(ProviderError::new(ProviderErrorKind::ResponseMalformed)),
        Some(value) => match message_content(value) {
            None => Err(ProviderError::new(ProviderErrorKind::ResponseEmpty)),
            Some(t) => Ok(t),
        },
    }
}

} // verus!
