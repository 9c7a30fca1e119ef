use vstd::prelude::*;

use crate::infrastructure::ai::contract_fixtures::{
    is_success_status, ProviderError, ProviderErrorKind,
};
pub use crate::infrastructure::ai::openai::{map_status, map_status_spec};
use crate::application::translation::prompt_compiler::CompiledPrompt;
use crate::infrastructure::ai::openai::{role_message, role_message_spec};
use crate::json::{
    get_str, items_view, json_list, json_member, json_object, json_text, json_type_object, json_view,
    members_view, str_member, JsonValue, JsonView,
};
use crate::text::{push_str, str_equal};

verus! {

/// The anthropic-version header value the adapter sends.
pub const ANTHROPIC_VERSION: &'static str = "2023-06-01";

/// The name of the tool whose input carries the structured result.
pub const ADAPTIVE_TRANSLATION_TOOL: &'static str = "adaptive_translation";

/// The system text of a request: the system contract, an empty line, then the mode
/// instruction.
pub open spec fn system_text_spec(prompt: CompiledPrompt) -> Seq<char> {
    prompt.system_contract_spec() + "\n\n"@ + prompt.mode_instruction_spec()
}

/// The system text of a request for `prompt`.
pub fn system_text(prompt: &CompiledPrompt) -> (text: String)
    ensures
        text@ == system_text_spec(*prompt),
{
    let mut text = String::new();
    push_str(&mut text, prompt.system_contract());
    push_str(&mut text, "\n\n");
    push_str(&mut text, prompt.mode_instruction());
    assert(text@ =~= system_text_spec(*prompt));
    text
}

/// The tool whose forced use carries the structured result, as a request declares it.
pub open spec fn tool_spec() -> JsonView {
    JsonView::Members(
        seq![
            ("description"@, JsonView::Text("Return the complete validated adaptive translation result."@)),
            ("input_schema"@, JsonView::Members(seq![("type"@, JsonView::Text("object"@))])),
            ("name"@, JsonView::Text("adaptive_translation"@)),
        ],
    )
}

/// The body of a Messages API request: at most 2048 output tokens, the user content as
/// the one message, the model, the system text, and the forced use of the one tool.
pub open spec fn request_body_spec(model: Seq<char>, prompt: CompiledPrompt) -> JsonView {
    JsonView::Members(
        seq![
            ("max_tokens"@, JsonView::Number("2048"@)),
            ("messages"@, JsonView::List(seq![role_message_spec("user"@, prompt.user_content_spec())])),
            ("model"@, JsonView::Text(model)),
            ("system"@, JsonView::Text(system_text_spec(prompt))),
            (
                "tool_choice"@,
                JsonView::Members(
                    seq![
                        ("name"@, JsonView::Text("adaptive_translation"@)),
                        ("type"@, JsonView::Text("tool"@)),
                    ],
                ),
            ),
            ("tools"@, JsonView::List(seq![tool_spec()])),
        ],
    )
}

/// The body of a Messages API request for `model` and `prompt`.
pub fn request_body(model: &str, prompt: &CompiledPrompt) -> (body: JsonValue)
    ensures
        json_view(body) == request_body_spec(model@, *prompt),
{
    proof {
        reveal_strlit("adaptive_translation");
    }
    let messages = vec![role_message("user", prompt.user_content())];
    assert(items_view(messages@) =~= seq![role_message_spec("user"@, prompt.user_content_spec())]);
    let choice_members = vec![
        json_member("name", json_text(ADAPTIVE_TRANSLATION_TOOL)),
        json_member("type", json_text("tool")),
    ];
    assert(members_view(choice_members@) =~= seq![
        ("name"@, JsonView::Text("adaptive_translation"@)),
        ("type"@, JsonView::Text("tool"@)),
    ]);
    let tool_members = vec![
        json_member(
            "description",
            json_text("Return the complete validated adaptive translation result."),
        ),
        json_member("input_schema", json_type_object("object")),
        json_member("name", json_text(ADAPTIVE_TRANSLATION_TOOL)),
    ];
    let tool = json_object(tool_members);
    assert(json_view(tool) == tool_spec()) by {
        assert(members_view(tool_members@) =~= tool_spec()->Members_0);
    }
    let tools = vec![tool];
    assert(items_view(tools@) =~= seq![tool_spec()]);
    let members = vec![
        json_member("max_tokens", JsonValue::Number("2048".to_string())),
        json_member("messages", json_list(messages)),
        json_member("model", json_text(model)),
        json_member("system", JsonValue::String(system_text(prompt))),
        json_member("tool_choice", json_object(choice_members)),
        json_member("tools", json_list(tools)),
    ];
    assert(members_view(members@) =~= request_body_spec(model@, *prompt)->Members_0);
    json_object(members)
}

/// The input of a content block that uses the adaptive translation tool.
pub open spec fn block_tool_input(block: JsonValue) -> Option<JsonValue> {
    if str_member(block, "type"@) == Some("tool_use"@) && str_member(block, "name"@) == Some(
        "adaptive_translation"@,
    ) {
        block.get_spec("input"@)
    } else {
        None
    }
}

/// The first adaptive translation tool input among content blocks from position `from` on.
pub open spec fn first_tool_input(blocks: Seq<JsonValue>, from: int) -> Option<JsonValue>
    decreases blocks.len() - from,
{
    if from < 0 || from >= blocks.len() {
        None
    } else {
        match block_tool_input(blocks[from]) {
            Some(input) => Some(input),
            None => first_tool_input(blocks, from + 1),
        }
    }
}

/// The structured result of a Messages API body: the input of its first use of the named
/// tool (text blocks and other tools are ignored).
pub open spec fn tool_result_spec(value: JsonValue) -> Option<JsonValue> {
    match value.get_spec("content"@) {
        Some(JsonValue::Array(blocks)) => first_tool_input(blocks@, 0),
        _ => None,
    }
}

fn block_tool_input_exec(block: &JsonValue) -> (input: Option<&JsonValue>)
    ensures
        match block_tool_input(*block) {
            Some(i) => input == Some(&i),
            None => input is None,
        },
{
    let is_tool_use = match get_str(block, "type") {
        Some(kind) => str_equal(kind, "tool_use"),
        None => false,
    };
    let is_named = match get_str(block, "name") {
        Some(name) => str_equal(name, "adaptive_translation"),
        None => false,
    };
    if is_tool_use && is_named {
        block.get("input")
    } else {
        None
    }
}

/// Reads the named tool's input from a Messages API body.
#[verifier::loop_isolation(false)]
pub fn tool_result(value: &JsonValue) -> (input: Option<&JsonValue>)
    ensures
        match tool_result_spec(*value) {
            Some(i) => input == Some(&i),
            None => input is None,
        },
{
    match value.get("content") {
        Some(JsonValue::Array(blocks)) => {
            let mut i: usize = 0;
            while i < blocks.len()
                invariant
                    i <= blocks@.len(),
                    first_tool_input(blocks@, 0) == first_tool_input(blocks@, i as int),
                decreases blocks@.len() - i,
            {
                if let Some(input) = block_tool_input_exec(&blocks[i]) {
                    return Some(input);
                }
                i = i + 1;
            }
            None
        },
        _ => None,
    }
}

/// The model declined to answer: the stop reason is `refusal`.
pub open spec fn is_refusal_spec(value: JsonValue) -> bool {
    str_member(value, "stop_reason"@) == Some("refusal"@)
}

pub fn is_refusal(value: &JsonValue) -> (refused: bool)
    ensures
        refused == is_refusal_spec(*value),
{
    match get_str(value, "stop_reason") {
        Some(reason) => str_equal(reason, "refusal"),
        None => false,
    }
}

/// What a Messages API reply yields before decoding: a failure for an unsuccessful status,
/// an unreadable body (`None`), a refusal or a missing tool input, else the tool input.
pub open spec fn response_input_spec(status: u16, body: Option<JsonValue>) -> Result<
    JsonValue,
    ProviderError,
> {
    if !is_success_status(status) {
        Err(ProviderError::of_kind(map_status_spec(status)))
    } else {
        match body {
            None => Err(ProviderError::of_kind(ProviderErrorKind::ResponseMalformed)),
            Some(value) => if is_refusal_spec(value) {
                Err(ProviderError::of_kind(ProviderErrorKind::SafetyRefusal))
            } else {
                match tool_result_spec(value) {
                    None => Err(ProviderError::of_kind(ProviderErrorKind::ResponseEmpty)),
                    Some(input) => Ok(input),
                }
            },
        }
    }
}

/// Reads a Messages API reply: its status, then its body (`None` when it was not JSON).
pub fn response_input(status: u16, body: Option<&JsonValue>) -> (input: Result<
    &JsonValue,
    ProviderError,
>)
    ensures
        match response_input_spec(
            status,
            match body {
                Some(b) => Some(*b),
                None => None,
            },
        ) {
            Ok(i) => input == Ok::<&JsonValue, ProviderError>(&i),
            Err(e) => input == Err::<&JsonValue, ProviderError>(e),
        },
{
    if !(200 <= status && status <= 299) {
        return Err(ProviderError::new(map_status(status)));
    }
    match body {
        None => Err(ProviderError::new(ProviderErrorKind::ResponseMalformed)),
        Some(value) => {
            if is_refusal(value) {
                return Err(ProviderError::new(ProviderErrorKind::SafetyRefusal));
            }
            match tool_result(value) {
                None => Err(ProviderError::new(ProviderErrorKind::ResponseEmpty)),
                Some(input) => Ok(input),
            }
        },
    }
}

} // verus!
