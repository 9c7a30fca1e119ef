use vstd::prelude::*;

use crate::infrastructure::ai::contract_fixtures::{
    is_success_status, nonblank, nonblank_exec, ProviderError, ProviderErrorKind,
};
use crate::application::translation::prompt_compiler::CompiledPrompt;
use crate::json::{
    get_str, items_view, json_list, json_member, json_object, json_text, json_type_object, json_view,
    members_view, str_member, JsonValue, JsonView,
};
use crate::text::str_equal;

verus! {

/// A chat message `{"content": content, "role": role}`.
pub open spec fn role_message_spec(role: Seq<char>, content: Seq<char>) -> JsonView {
    JsonView::Members(seq![("content"@, JsonView::Text(content)), ("role"@, JsonView::Text(role))])
}

/// The chat message with `role` and `content`.
pub fn role_message(role: &str, content: &str) -> (message: JsonValue)
    ensures
        json_view(message) == role_message_spec(role@, content@),
{
    let members = vec![json_member("content", json_text(content)), json_member("role", json_text(role))];
    assert(members_view(members@) =~= seq![
        ("content"@, JsonView::Text(content@)),
        ("role"@, JsonView::Text(role@)),
    ]);
    json_object(members)
}

/// The three prompt layers as messages: the system contract, the mode instruction as the
/// developer's message, and the user content.
pub open spec fn layered_messages_spec(prompt: CompiledPrompt) -> JsonView {
    JsonView::List(
        seq![
            role_message_spec("system"@, prompt.system_contract_spec()),
            role_message_spec("developer"@, prompt.mode_instruction_spec()),
            role_message_spec("user"@, prompt.user_content_spec()),
        ],
    )
}

/// The three prompt layers as messages.
pub fn layered_messages(prompt: &CompiledPrompt) -> (messages: JsonValue)
    ensures
        json_view(messages) == layered_messages_spec(*prompt),
{
    let items = vec![
        role_message("system", prompt.system_contract()),
        role_message("developer", prompt.mode_instruction()),
        role_message("user", prompt.user_content()),
    ];
    assert(items_view(items@) =~= seq![
        role_message_spec("system"@, prompt.system_contract_spec()),
        role_message_spec("developer"@, prompt.mode_instruction_spec()),
        role_message_spec("user"@, prompt.user_content_spec()),
    ]);
    json_list(items)
}

/// The strict structured-output schema named `adaptive_translation`, with the members that
/// every request body gives it.
pub open spec fn strict_schema_members_spec() -> Seq<(Seq<char>, JsonView)> {
    seq![
        ("name"@, JsonView::Text("adaptive_translation"@)),
        ("schema"@, JsonView::Members(seq![("type"@, JsonView::Text("object"@))])),
        ("strict"@, JsonView::Bool(true)),
    ]
}

/// The body of a Responses API request: the model, the layered prompt as input, and a
/// strict JSON-schema text format.
pub open spec fn request_body_spec(model: Seq<char>, prompt: CompiledPrompt) -> JsonView {
    JsonView::Members(
        seq![
            ("input"@, layered_messages_spec(prompt)),
            ("model"@, JsonView::Text(model)),
            (
                "text"@,
                JsonView::Members(
                    seq![
                        (
                            "format"@,
                            JsonView::Members(
                                strict_schema_members_spec().push(
                                    ("type"@, JsonView::Text("json_schema"@)),
                                ),
                            ),
                        ),
                    ],
                ),
            ),
        ],
    )
}

/// The body of a Responses API request for `model` and `prompt`.
pub fn request_body(model: &str, prompt: &CompiledPrompt) -> (body: JsonValue)
    ensures
        json_view(body) == request_body_spec(model@, *prompt),
{
    let format_members = vec![
        json_member("name", json_text("adaptive_translation")),
        json_member("schema", json_type_object("object")),
        json_member("strict", JsonValue::Bool(true)),
        json_member("type", json_text("json_schema")),
    ];
    assert(members_view(format_members@) =~= strict_schema_members_spec().push(
        ("type"@, JsonView::Text("json_schema"@)),
    ));
    let format = json_object(format_members);
    let text_members = vec![json_member("format", format)];
    let ghost format_view = json_view(text_members@[0].1);
    assert(members_view(text_members@) =~= seq![("format"@, format_view)]);
    let text = json_object(text_members);
    let members = vec![
        json_member("input", layered_messages(prompt)),
        json_member("model", json_text(model)),
        json_member("text", text),
    ];
    assert(members_view(members@) =~= seq![
        ("input"@, layered_messages_spec(*prompt)),
        ("model"@, JsonView::Text(model@)),
        ("text"@, json_view(members@[2].1)),
    ]);
    json_object(members)
}

/// The failure class of an unsuccessful HTTP status of the Responses API.
pub open spec fn map_status_spec(status: u16) -> ProviderErrorKind {
    if status == 401 {
        ProviderErrorKind::AuthenticationFailed
    } else if status == 429 {
        ProviderErrorKind::RateLimited
    } else if status == 402 {
        ProviderErrorKind::QuotaExceeded
    } else if status == 404 {
        ProviderErrorKind::ModelUnavailable
    } else if status == 403 {
        ProviderErrorKind::SafetyRefusal
    } else {
        ProviderErrorKind::Network
    }
}

/// Classifies an unsuccessful HTTP status without reading the response.
pub fn map_status(status: u16) -> (kind: ProviderErrorKind)
    ensures
        kind == map_status_spec(status),
{
    if status == 401 {
        ProviderErrorKind::AuthenticationFailed
    } else if status == 429 {
        ProviderErrorKind::RateLimited
    } else if status == 402 {
        ProviderErrorKind::QuotaExceeded
    } else if status == 404 {
        ProviderErrorKind::ModelUnavailable
    } else if status == 403 {
        ProviderErrorKind::SafetyRefusal
    } else {
        ProviderErrorKind::Network
    }
}

/// The text of an `output_text` content part, when it is not blank.
pub open spec fn output_part_text(part: JsonValue) -> Option<Seq<char>> {
    if str_member(part, "type"@) == Some("output_text"@) {
        nonblank(str_member(part, "text"@))
    } else {
        None
    }
}

/// The first non-blank `output_text` among content parts from position `from` on.
pub open spec fn first_part_text(parts: Seq<JsonValue>, from: int) -> Option<Seq<char>>
    decreases parts.len() - from,
{
    if from < 0 || from >= parts.len() {
        None
    } else {
        match output_part_text(parts[from]) {
            Some(t) => Some(t),
            None => first_part_text(parts, from + 1),
        }
    }
}

/// The text of a completed message output item.
pub open spec fn output_item_text(item: JsonValue) -> Option<Seq<char>> {
    if str_member(item, "type"@) == Some("message"@) && str_member(item, "status"@) == Some(
        "completed"@,
    ) {
        match item.get_spec("content"@) {
            Some(JsonValue::Array(parts)) => first_part_text(parts@, 0),
            _ => None,
        }
    } else {
        None
    }
}

/// The first completed message text among output items from position `from` on.
pub open spec fn first_item_text(items: Seq<JsonValue>, from: int) -> Option<Seq<char>>
    decreases items.len() - from,
{
    if from < 0 || from >= items.len() {
        None
    } else {
        match output_item_text(items[from]) {
            Some(t) => Some(t),
            None => first_item_text(items, from + 1),
        }
    }
}

/// The structured output text of a Responses API body: the first non-blank `output_text`
/// part of the first completed message that has one (reasoning items are skipped).
pub open spec fn response_output_text_spec(value: JsonValue) -> Option<Seq<char>> {
    match value.get_spec("output"@) {
        Some(JsonValue::Array(items)) => first_item_text(items@, 0),
        _ => None,
    }
}

fn output_part_text_exec(part: &JsonValue) -> (text: Option<&str>)
    ensures
        match output_part_text(*part) {
            Some(t) => text matches Some(x) && x@ == t,
            None => text is None,
        },
{
    match get_str(part, "type") {
        Some(kind) => if str_equal(kind, "output_text") {
            nonblank_exec(get_str(part, "text"))
        } else {
            None
        },
        None => None,
    }
}

#[verifier::loop_isolation(false)]
fn output_item_text_exec(item: &JsonValue) -> (text: Option<&str>)
    ensures
        match output_item_text(*item) {
            Some(t) => text matches Some(x) && x@ == t,
            None => text is None,
        },
{
    let is_message = match get_str(item, "type") {
        Some(kind) => str_equal(kind, "message"),
        None => false,
    };
    let is_completed = match get_str(item, "status") {
        Some(status) => str_equal(status, "completed"),
        None => false,
    };
    if !(is_message && is_completed) {
        return None;
    }
    match item.get("content") {
        Some(JsonValue::Array(parts)) => {
            let mut i: usize = 0;
            while i < parts.len()
                invariant
                    i <= parts@.len(),
                    first_part_text(parts@, 0) == first_part_text(parts@, i as int),
                decreases parts@.len() - i,
            {
                if let Some(t) = output_part_text_exec(&parts[i]) {
                    return Some(t);
                }
                i = i + 1;
            }
            None
        },
        _ => None,
    }
}

/// Reads the structured output text of a Responses API body.
#[verifier::loop_isolation(false)]
pub fn response_output_text(value: &JsonValue) -> (text: Option<&str>)
    ensures
        match response_output_text_spec(*value) {
            Some(t) => text matches Some(x) && x@ == t,
            None => text is None,
        },
{
    match value.get("output") {
        Some(JsonValue::Array(items)) => {
            let mut i: usize = 0;
            while i < items.len()
                invariant
                    i <= items@.len(),
                    first_item_text(items@, 0) == first_item_text(items@, i as int),
                decreases items@.len() - i,
            {
                if let Some(t) = output_item_text_exec(&items[i]) {
                    return Some(t);
                }
                i = i + 1;
            }
            None
        },
        _ => None,
    }
}

/// What a Responses API reply yields before decoding: a failure for an unsuccessful
/// status, an unreadable body (`None`) or a missing output text, else the output text.
pub open spec fn response_text_spec(status: u16, body: Option<JsonValue>) -> Result<
    Seq<char>,
    ProviderError,
> {
    if !is_success_status(status) {
        Err(ProviderError::of_kind(map_status_spec(status)))
    } else {
        match body {
            None => Err(ProviderError::of_kind(ProviderErrorKind::ResponseMalformed)),
            Some(value) => match response_output_text_spec(value) {
                None => Err(ProviderError::of_kind(ProviderErrorKind::ResponseEmpty)),
                Some(t) => Ok(t),
            },
        }
    }
}

/// Reads a Responses API reply: its status, then its body (`None` when it was not JSON).
pub fn response_text(status: u16, body: Option<&JsonValue>) -> (text: Result<&str, ProviderError>)
    ensures
        match response_text_spec(
            status,
            match body {
                Some(b) => Some(*b),
                None => None,
            },
        ) {
            Ok(t) => text matches Ok(x) && x@ == t,
            Err(e) => text == Err::<&str, ProviderError>(e),
        },
{
    if !(200 <= status && status <= 299) {
        return Err(ProviderError::new(map_status(status)));
    }
    match body {
        None => Err(ProviderError::new(ProviderErrorKind::ResponseMalformed)),
        Some(value) => match response_output_text(value) {
            None => Err(ProviderError::new(ProviderErrorKind::ResponseEmpty)),
            Some(t) => Ok(t),
        },
    }
}

} // verus!
