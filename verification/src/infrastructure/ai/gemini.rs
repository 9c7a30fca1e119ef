use vstd::prelude::*;

use crate::infrastructure::ai::contract_fixtures::{
    is_success_status, nonblank, nonblank_exec, ProviderError, ProviderErrorKind,
};
use crate::application::translation::prompt_compiler::CompiledPrompt;
use crate::infrastructure::ai::anthropic::{system_text, system_text_spec};
use crate::json::{
    items_view, json_list, json_member, json_object, json_text, json_type_object, json_view,
    members_view, step_first, step_first_exec, step_member, step_member_exec, text_of, JsonValue,
    JsonView,
};
use crate::text::str_equal;

verus! {

/// Content parts holding one text: `{"parts": [{"text": text}]}`.
pub open spec fn text_parts_spec(text: Seq<char>) -> Seq<(Seq<char>, JsonView)> {
    seq![("parts"@, JsonView::List(seq![JsonView::Members(seq![("text"@, JsonView::Text(text))])]))]
}

/// The members `{"parts": [{"text": text}]}`.
fn text_parts(text: JsonValue) -> (members: Vec<(String, JsonValue)>)
    requires
        json_view(text) matches JsonView::Text(_),
    ensures
        members_view(members@) == text_parts_spec(json_view(text)->Text_0),
{
    let ghost t = json_view(text)->Text_0;
    let part_members = vec![json_member("text", text)];
    assert(members_view(part_members@) =~= seq![("text"@, JsonView::Text(t))]);
    let parts = vec![json_object(part_members)];
    assert(items_view(parts@) =~= seq![JsonView::Members(seq![("text"@, JsonView::Text(t))])]);
    let members = vec![json_member("parts", json_list(parts))];
    assert(members_view(members@) =~= text_parts_spec(t));
    members
}

/// The body of a `generateContent` request: the user content as the one user turn, a JSON
/// response with an object schema, and the system text as the system instruction.
pub open spec fn request_body_spec(prompt: CompiledPrompt) -> JsonView {
    JsonView::Members(
        seq![
            (
                "contents"@,
                JsonView::List(
                    seq![
                        JsonView::Members(
                            text_parts_spec(prompt.user_content_spec()).push(
                                ("role"@, JsonView::Text("user"@)),
                            ),
                        ),
                    ],
                ),
            ),
            (
                "generationConfig"@,
                JsonView::Members(
                    seq![
                        ("responseMimeType"@, JsonView::Text("application/json"@)),
                        ("responseSchema"@, JsonView::Members(seq![("type"@, JsonView::Text("OBJECT"@))])),
                    ],
                ),
            ),
            ("systemInstruction"@, JsonView::Members(text_parts_spec(system_text_spec(prompt)))),
        ],
    )
}

/// The body of a `generateContent` request for `prompt` (the model is named in the URL).
pub fn request_body(prompt: &CompiledPrompt) -> (body: JsonValue)
    ensures
        json_view(body) == request_body_spec(*prompt),
{
    let mut turn_members = text_parts(json_text(prompt.user_content()));
    let ghost before = turn_members@;
    turn_members.push(json_member("role", json_text("user")));
    assert(members_view(turn_members@) =~= members_view(before).push(("role"@, JsonView::Text("user"@))));
    let turn = json_object(turn_members);
    let contents = vec![turn];
    assert(items_view(contents@) =~= request_body_spec(*prompt)->Members_0[0].1->List_0);
    let config_members = vec![
        json_member("responseMimeType", json_text("application/json")),
        json_member("responseSchema", json_type_object("OBJECT")),
    ];
    assert(members_view(config_members@) =~= request_body_spec(*prompt)->Members_0[1].1->Members_0);
    let system = text_parts(JsonValue::String(system_text(prompt)));
    let members = vec![
        json_member("contents", json_list(contents)),
        json_member("generationConfig", json_object(config_members)),
        json_member("systemInstruction", json_object(system)),
    ];
    assert(members_view(members@) =~= request_body_spec(*prompt)->Members_0);
    json_object(members)
}

/// The failure class of an unsuccessful HTTP status of the Gemini API.
pub open spec fn map_status_spec(status: u16) -> ProviderErrorKind {
    if status == 401 || status == 403 {
        ProviderErrorKind::AuthenticationFailed
    } else if status == 429 {
        ProviderErrorKind::RateLimited
    } else if status == 402 {
        ProviderErrorKind::QuotaExceeded
    } else if status == 404 {
        ProviderErrorKind::ModelUnavailable
    } else {
        ProviderErrorKind::Network
    }
}

/// Classifies an unsuccessful HTTP status without reading the response.
pub fn map_status(status: u16) -> (kind: ProviderErrorKind)
    ensures
        kind == map_status_spec(status),
{
    if status == 401 || status == 403 {
        ProviderErrorKind::AuthenticationFailed
    } else if status == 429 {
        ProviderErrorKind::RateLimited
    } else if status == 402 {
        ProviderErrorKind::QuotaExceeded
    } else if status == 404 {
        ProviderErrorKind::ModelUnavailable
    } else {
        ProviderErrorKind::Network
    }
}

/// The value at `/candidates/0`.
pub open spec fn first_candidate(value: JsonValue) -> Option<JsonValue> {
    step_first(step_member(Some(value), "candidates"@))
}

/// The prompt was blocked (`/promptFeedback/blockReason` is present and not null), or the
/// first candidate finished for safety (`/candidates/0/finishReason` is `SAFETY`).
pub open spec fn is_safety_refusal_spec(value: JsonValue) -> bool {
    ||| (step_member(step_member(Some(value), "promptFeedback"@), "blockReason"@) matches Some(
        reason,
    ) && !(reason is Null))
    ||| text_of(step_member(first_candidate(value), "finishReason"@)) == Some("SAFETY"@)
}

/// The non-blank text at `/candidates/0/content/parts/0/text`.
pub open spec fn candidate_text_spec(value: JsonValue) -> Option<Seq<char>> {
    nonblank(
        text_of(
            step_member(
                step_first(step_member(step_member(first_candidate(value), "content"@), "parts"@)),
                "text"@,
            ),
        ),
    )
}

fn first_candidate_exec(value: &JsonValue) -> (candidate: Option<&JsonValue>)
    ensures
        match first_candidate(*value) {
            Some(c) => candidate == Some(&c),
            None => candidate is None,
        },
{
    step_first_exec(step_member_exec(Some(value), "candidates"))
}

/// Whether a Gemini body reports a safety block.
pub fn is_safety_refusal(value: &JsonValue) -> (refused: bool)
    ensures
        refused == is_safety_refusal_spec(*value),
{
    let blocked = match step_member_exec(step_member_exec(Some(value), "promptFeedback"), "blockReason") {
        Some(JsonValue::Null) => false,
        Some(_) => true,
        None => false,
    };
    if blocked {
        return true;
    }
    match step_member_exec(first_candidate_exec(value), "finishReason") {
        Some(reason) => match reason.as_str() {
            Some(text) => str_equal(text, "SAFETY"),
            None => false,
        },
        None => false,
    }
}

/// Reads the first candidate's first part text, when it is not blank.
pub fn candidate_text(value: &JsonValue) -> (text: Option<&str>)
    ensures
        match candidate_text_spec(*value) {
            Some(t) => text matches Some(x) && x@ == t,
            None => text is None,
        },
{
    let content = step_member_exec(first_candidate_exec(value), "content");
    let part = step_first_exec(step_member_exec(content, "parts"));
    let text = match step_member_exec(part, "text") {
        Some(t) => t.as_str(),
        None => None,
    };
    nonblank_exec(text)
}

/// What a Gemini reply yields before decoding: a failure for an unsuccessful status, an
/// unreadable body (`None`), a safety block or a missing text, else the candidate text.
pub open spec fn response_text_spec(status: u16, body: Option<JsonValue>) -> Result<
    Seq<char>,
    ProviderError,
> {
    if !is_success_status(status) {
        Err(ProviderError::of_kind(map_status_spec(status)))
    } else {
        match body {
            None => Err(ProviderError::of_kind(ProviderErrorKind::ResponseMalformed)),
            Some(value) => if is_safety_refusal_spec(value) {
                Err(ProviderError::of_kind(ProviderErrorKind::SafetyRefusal))
            } else {
                match candidate_text_spec(value) {
                    None => Err(ProviderError::of_kind(ProviderErrorKind::ResponseEmpty)),
                    Some(t) => Ok(t),
                }
            },
        }
    }
}

/// Reads a Gemini reply: its status, then its body (`None` when it was not JSON).
pub fn response_text(status: u16, body: Option<&JsonValue>) -> (text: Result<&str, ProviderError>)
    ensures
        match response_text_spec(
            status,
            match body {
                Some(b) => Some(*b),
                None => None,
            },
        ) {
            Ok(t) => text matches Ok(x) && x@ == t,
            Err(e) => text == Err::<&str, ProviderError>(e),
        },
{
    if !(200 <= status && status <= 299) {
        return Err(ProviderError::new(map_status(status)));
    }
    match body {
        None => Err(ProviderError::new(ProviderErrorKind::ResponseMalformed)),
        Some(value) => {
            if is_safety_refusal(value) {
                return Err(ProviderError::new(ProviderErrorKind::SafetyRefusal));
            }
            match candidate_text(value) {
                None => Err(ProviderError::new(ProviderErrorKind::ResponseEmpty)),
                Some(t) => Ok(t),
            }
        },
    }
}

} // verus!
