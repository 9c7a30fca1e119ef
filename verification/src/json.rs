use vstd::prelude::*;

use crate::text::{chars_of, str_equal};

verus! {

/// A JSON document as the library reads it: numbers keep their JSON text, and an object
/// keeps its members in order (as `serde_json` iterates them, sorted by key).
#[derive(Debug, PartialEq, Eq)]
pub enum JsonValue {
    Null,
    Bool(bool),
    Number(String),
    String(String),
    Array(Vec<JsonValue>),
    Object(Vec<(String, JsonValue)>),
}

/// A JSON document as plain values.
pub enum JsonView {
    Null,
    Bool(bool),
    Number(Seq<char>),
    Text(Seq<char>),
    List(Seq<JsonView>),
    Members(Seq<(Seq<char>, JsonView)>),
}

/// A document as plain values: texts by their characters, members in order.
pub open spec fn json_view(value: JsonValue) -> JsonView
    decreases value,
{
    match value {
        JsonValue::Null => JsonView::Null,
        JsonValue::Bool(b) => JsonView::Bool(b),
        JsonValue::Number(n) => JsonView::Number(n@),
        JsonValue::String(s) => JsonView::Text(s@),
        JsonValue::Array(items) => JsonView::List(
            Seq::new(
                items@.len(),
                |i: int|
                    if 0 <= i < items@.len() {
                        json_view(items@[i])
                    } else {
                        JsonView::Null
                    },
            ),
        ),
        JsonValue::Object(entries) => JsonView::Members(
            Seq::new(
                entries@.len(),
                |i: int|
                    if 0 <= i < entries@.len() {
                        (entries@[i].0@, json_view(entries@[i].1))
                    } else {
                        (Seq::empty(), JsonView::Null)
                    },
            ),
        ),
    }
}

/// The text document holding `text`.
pub fn json_text(text: &str) -> (value: JsonValue)
    ensures
        json_view(value) == JsonView::Text(text@),
{
    JsonValue::String(text.to_string())
}

/// The member `key` with `value`.
pub fn json_member(key: &str, value: JsonValue) -> (member: (String, JsonValue))
    ensures
        member.0@ == key@,
        member.1 == value,
{
    (key.to_string(), value)
}

/// The members of an object as plain values.
pub open spec fn members_view(members: Seq<(String, JsonValue)>) -> Seq<(Seq<char>, JsonView)> {
    Seq::new(members.len(), |i: int| (members[i].0@, json_view(members[i].1)))
}

/// The items of an array as plain values.
pub open spec fn items_view(items: Seq<JsonValue>) -> Seq<JsonView> {
    Seq::new(items.len(), |i: int| json_view(items[i]))
}

/// The object with `members`, in order.
pub fn json_object(members: Vec<(String, JsonValue)>) -> (value: JsonValue)
    ensures
        json_view(value) == JsonView::Members(members_view(members@)),
{
    let ghost m = members@;
    let value = JsonValue::Object(members);
    assert(json_view(value) matches JsonView::Members(ms) && ms =~= members_view(m));
    value
}

/// The array with `items`, in order.
pub fn json_list(items: Vec<JsonValue>) -> (value: JsonValue)
    ensures
        json_view(value) == JsonView::List(items_view(items@)),
{
    let ghost m = items@;
    let value = JsonValue::Array(items);
    assert(json_view(value) matches JsonView::List(ms) && ms =~= items_view(m));
    value
}

/// The object `{"type": kind}`, as request bodies give a schema's type.
pub fn json_type_object(kind: &str) -> (value: JsonValue)
    ensures
        json_view(value) == JsonView::Members(seq![("type"@, JsonView::Text(kind@))]),
{
    let members = vec![json_member("type", json_text(kind))];
    assert(members_view(members@) =~= seq![("type"@, JsonView::Text(kind@))]);
    json_object(members)
}

/// The value of the first member of `entries` from position `from` on whose key is `key`.
pub open spec fn member_from(entries: Seq<(String, JsonValue)>, key: Seq<char>, from: int) -> Option<
    JsonValue,
>
    decreases entries.len() - from,
{
    if from < 0 || from >= entries.len() {
        None
    } else if entries[from].0@ == key {
        Some(entries[from].1)
    } else {
        member_from(entries, key, from + 1)
    }
}

/// The two texts that `serde_json` writes for a floating-point zero.
pub open spec fn is_float_zero(text: Seq<char>) -> bool {
    text == "0.0"@ || text == "-0.0"@
}

/// Two number texts as `serde_json` writes them denote equal numbers: the same text, or
/// both a floating-point zero (`-0.0` equals `0.0`).
pub open spec fn numbers_equal(a: Seq<char>, b: Seq<char>) -> bool {
    a == b || (is_float_zero(a) && is_float_zero(b))
}

/// Structural equality of two documents, by the text of their strings and the value of
/// their numbers.
pub open spec fn json_equal(a: JsonValue, b: JsonValue) -> bool
    decreases a,
{
    match (a, b) {
        (JsonValue::Null, JsonValue::Null) => true,
        (JsonValue::Bool(x), JsonValue::Bool(y)) => x == y,
        (JsonValue::Number(x), JsonValue::Number(y)) => numbers_equal(x@, y@),
        (JsonValue::String(x), JsonValue::String(y)) => x@ == y@,
        (JsonValue::Array(xs), JsonValue::Array(ys)) => xs@.len() == ys@.len() && forall|i: int|
            0 <= i < xs@.len() ==> json_equal(#[trigger] xs@[i], ys@[i]),
        (JsonValue::Object(xs), JsonValue::Object(ys)) => xs@.len() == ys@.len() && forall|i: int|
            0 <= i < xs@.len() ==> (#[trigger] xs@[i]).0@ == ys@[i].0@ && json_equal(
                xs@[i].1,
                ys@[i].1,
            ),
        _ => false,
    }
}

/// ASCII upper-case letters made lower case; every other character unchanged
/// (`char::to_ascii_lowercase`).
pub open spec fn ascii_lower(c: char) -> char {
    if 'A' <= c && c <= 'Z' {
        ((c as u32) + 32) as char
    } else {
        c
    }
}

/// `key` equals `lower` once its ASCII letters are made lower case.
pub open spec fn lowercases_to(key: Seq<char>, lower: Seq<char>) -> bool {
    key.len() == lower.len() && forall|i: int| 0 <= i < key.len() ==> ascii_lower(#[trigger] key[i]) == lower[i]
}

/// An object key that names credential material, compared without ASCII case.
pub open spec fn is_secret_key_name(key: Seq<char>) -> bool {
    ||| lowercases_to(key, "api_key"@)
    ||| lowercases_to(key, "authorization"@)
    ||| lowercases_to(key, "secret"@)
    ||| lowercases_to(key, "token"@)
}

/// Some object key anywhere in the document names credential material.
pub open spec fn has_secret_key(value: JsonValue) -> bool
    decreases value,
{
    match value {
        JsonValue::Object(entries) => exists|i: int|
            0 <= i < entries@.len() && (is_secret_key_name((#[trigger] entries@[i]).0@)
                || has_secret_key(entries@[i].1)),
        JsonValue::Array(items) => exists|i: int|
            0 <= i < items@.len() && has_secret_key(#[trigger] items@[i]),
        _ => false,
    }
}

fn ascii_lower_exec(c: char) -> (lower: char)
    ensures
        lower == ascii_lower(c),
{
    if 'A' <= c && c <= 'Z' {
        let code: u32 = c as u32 + 32;
        assert(code <= 0x7f);
        code as u8 as char
    } else {
        c
    }
}

/// Whether `key` equals `lower` once its ASCII letters are made lower case.
pub fn lowercases_to_exec(key: &str, lower: &str) -> (equal: bool)
    ensures
        equal == lowercases_to(key@, lower@),
{
    let k = chars_of(key);
    let l = chars_of(lower);
    if k.len() != l.len() {
        return false;
    }
    let mut i: usize = 0;
    while i < k.len()
        invariant
            k@ == key@,
            l@ == lower@,
            k@.len() == l@.len(),
            i <= k@.len(),
            forall|j: int| 0 <= j < i ==> ascii_lower(#[trigger] k@[j]) == l@[j],
        decreases k@.len() - i,
    {
        if ascii_lower_exec(k[i]) != l[i] {
            return false;
        }
        i = i + 1;
    }
    true
}

/// Whether an object key names credential material.
pub fn is_secret_key_name_exec(key: &str) -> (secret: bool)
    ensures
        secret == is_secret_key_name(key@),
{
    lowercases_to_exec(key, "api_key") || lowercases_to_exec(key, "authorization")
        || lowercases_to_exec(key, "secret") || lowercases_to_exec(key, "token")
}

/// Whether some object key anywhere in the document names credential material.
#[verifier::loop_isolation(false)]
pub fn contains_secret_key(value: &JsonValue) -> (found: bool)
    ensures
        found == has_secret_key(*value),
    decreases value,
{
    match value {
        JsonValue::Object(entries) => {
            let mut i: usize = 0;
            while i < entries.len()
                invariant
                    i <= entries@.len(),
                    *value == JsonValue::Object(*entries),
                    forall|j: int|
                        0 <= j < i ==> !(is_secret_key_name((#[trigger] entries@[j]).0@)
                            || has_secret_key(entries@[j].1)),
                decreases entries@.len() - i,
            {
                let entry = &entries[i];
                if is_secret_key_name_exec(entry.0.as_str()) {
                    assert(is_secret_key_name(entries@[i as int].0@));
                    return true;
                }
                proof {
                    vstd::std_specs::vec::axiom_vec_index_decreases(*entries, i as int);
                }
                if contains_secret_key(&entry.1) {
                    assert(has_secret_key(entries@[i as int].1));
                    return true;
                }
                i = i + 1;
            }
            false
        },
        JsonValue::Array(items) => {
            let mut i: usize = 0;
            while i < items.len()
                invariant
                    i <= items@.len(),
                    *value == JsonValue::Array(*items),
                    forall|j: int| 0 <= j < i ==> !has_secret_key(#[trigger] items@[j]),
                decreases items@.len() - i,
            {
                proof {
                    vstd::std_specs::vec::axiom_vec_index_decreases(*items, i as int);
                }
                if contains_secret_key(&items[i]) {
                    assert(has_secret_key(items@[i as int]));
                    return true;
                }
                i = i + 1;
            }
            false
        },
        _ => false,
    }
}

fn is_float_zero_exec(text: &str) -> (zero: bool)
    ensures
        zero == is_float_zero(text@),
{
    str_equal(text, "0.0") || str_equal(text, "-0.0")
}

/// Whether two number texts denote equal numbers.
pub fn numbers_equal_exec(a: &str, b: &str) -> (equal: bool)
    ensures
        equal == numbers_equal(a@, b@),
{
    str_equal(a, b) || (is_float_zero_exec(a) && is_float_zero_exec(b))
}

/// Structural equality of two documents.
#[verifier::loop_isolation(false)]
pub fn json_equal_exec(a: &JsonValue, b: &JsonValue) -> (equal: bool)
    ensures
        equal == json_equal(*a, *b),
    decreases a,
{
    match (a, b) {
        (JsonValue::Null, JsonValue::Null) => true,
        (JsonValue::Bool(x), JsonValue::Bool(y)) => *x == *y,
        (JsonValue::Number(x), JsonValue::Number(y)) => numbers_equal_exec(x.as_str(), y.as_str()),
        (JsonValue::String(x), JsonValue::String(y)) => str_equal(x.as_str(), y.as_str()),
        (JsonValue::Array(xs), JsonValue::Array(ys)) => {
            if xs.len() != ys.len() {
                return false;
            }
            let mut i: usize = 0;
            while i < xs.len()
                invariant
                    i <= xs@.len(),
                    xs@.len() == ys@.len(),
                    *a == JsonValue::Array(*xs),
                    *b == JsonValue::Array(*ys),
                    forall|j: int| 0 <= j < i ==> json_equal(#[trigger] xs@[j], ys@[j]),
                decreases xs@.len() - i,
            {
                proof {
                    vstd::std_specs::vec::axiom_vec_index_decreases(*xs, i as int);
                }
                if !json_equal_exec(&xs[i], &ys[i]) {
                    return false;
                }
                i = i + 1;
            }
            true
        },
        (JsonValue::Object(xs), JsonValue::Object(ys)) => {
            if xs.len() != ys.len() {
                return false;
            }
            let mut i: usize = 0;
            while i < xs.len()
                invariant
                    i <= xs@.len(),
                    xs@.len() == ys@.len(),
                    *a == JsonValue::Object(*xs),
                    *b == JsonValue::Object(*ys),
                    forall|j: int|
                        0 <= j < i ==> (#[trigger] xs@[j]).0@ == ys@[j].0@ && json_equal(
                            xs@[j].1,
                            ys@[j].1,
                        ),
                decreases xs@.len() - i,
            {
                if !str_equal(xs[i].0.as_str(), ys[i].0.as_str()) {
                    return false;
                }
                proof {
                    vstd::std_specs::vec::axiom_vec_index_decreases(*xs, i as int);
                }
                if !json_equal_exec(&xs[i].1, &ys[i].1) {
                    return false;
                }
                i = i + 1;
            }
            true
        },
        _ => false,
    }
}

/// A copy of a document, structurally equal to it.
#[verifier::loop_isolation(false)]
pub fn duplicate_json(value: &JsonValue) -> (copy: JsonValue)
    ensures
        json_equal(copy, *value),
    decreases value,
{
    match value {
        JsonValue::Null => JsonValue::Null,
        JsonValue::Bool(b) => JsonValue::Bool(*b),
        JsonValue::Number(n) => JsonValue::Number(n.clone()),
        JsonValue::String(s) => JsonValue::String(s.clone()),
        JsonValue::Array(items) => {
            let mut copies: Vec<JsonValue> = Vec::new();
            let mut i: usize = 0;
            while i < items.len()
                invariant
                    i <= items@.len(),
                    copies@.len() == i,
                    forall|j: int| 0 <= j < i ==> json_equal(#[trigger] copies@[j], items@[j]),
                decreases items@.len() - i,
            {
                proof {
                    vstd::std_specs::vec::axiom_vec_index_decreases(*items, i as int);
                }
                copies.push(duplicate_json(&items[i]));
                i = i + 1;
            }
            JsonValue::Array(copies)
        },
        JsonValue::Object(entries) => {
            let mut copies: Vec<(String, JsonValue)> = Vec::new();
            let mut i: usize = 0;
            while i < entries.len()
                invariant
                    i <= entries@.len(),
                    copies@.len() == i,
                    forall|j: int|
                        0 <= j < i ==> (#[trigger] copies@[j]).0@ == entries@[j].0@ && json_equal(
                            copies@[j].1,
                            entries@[j].1,
                        ),
                decreases entries@.len() - i,
            {
                proof {
                    vstd::std_specs::vec::axiom_vec_index_decreases(*entries, i as int);
                }
                let key = entries[i].0.clone();
                copies.push((key, duplicate_json(&entries[i].1)));
                i = i + 1;
            }
            JsonValue::Object(copies)
        },
    }
}


/// The text of the string member `key` of an object.
pub open spec fn str_member(value: JsonValue, key: Seq<char>) -> Option<Seq<char>> {
    match value.get_spec(key) {
        Some(JsonValue::String(s)) => Some(s@),
        _ => None,
    }
}

/// A JSON-pointer step by a member name that is not a number: the member of an object.
pub open spec fn step_member(value: Option<JsonValue>, key: Seq<char>) -> Option<JsonValue> {
    match value {
        Some(v) => v.get_spec(key),
        None => None,
    }
}

/// The JSON-pointer step `0`: the first item of an array, or the member `"0"` of an object.
pub open spec fn step_first(value: Option<JsonValue>) -> Option<JsonValue> {
    match value {
        Some(JsonValue::Array(items)) => if items@.len() > 0 {
            Some(items@[0])
        } else {
            None
        },
        Some(JsonValue::Object(_)) => value.unwrap().get_spec("0"@),
        _ => None,
    }
}

/// The text of a string value.
pub open spec fn text_of(value: Option<JsonValue>) -> Option<Seq<char>> {
    match value {
        Some(JsonValue::String(s)) => Some(s@),
        _ => None,
    }
}

/// The text of the string member `key` of an object.
pub fn get_str<'a>(value: &'a JsonValue, key: &str) -> (text: Option<&'a str>)
    ensures
        match str_member(*value, key@) {
            Some(t) => text matches Some(x) && x@ == t,
            None => text is None,
        },
{
    match value.get(key) {
        Some(member) => member.as_str(),
        None => None,
    }
}

/// The JSON-pointer step by a member name that is not a number.
pub fn step_member_exec<'a>(value: Option<&'a JsonValue>, key: &str) -> (next: Option<&'a JsonValue>)
    ensures
        match step_member(
            match value {
                Some(v) => Some(*v),
                None => None,
            },
            key@,
        ) {
            Some(n) => next == Some(&n),
            None => next is None,
        },
{
    match value {
        Some(v) => v.get(key),
        None => None,
    }
}

/// The JSON-pointer step `0`.
pub fn step_first_exec<'a>(value: Option<&'a JsonValue>) -> (next: Option<&'a JsonValue>)
    ensures
        match step_first(
            match value {
                Some(v) => Some(*v),
                None => None,
            },
        ) {
            Some(n) => next == Some(&n),
            None => next is None,
        },
{
    match value {
        Some(JsonValue::Array(items)) => if items.len() > 0 {
            Some(&items[0])
        } else {
            None
        },
        Some(v) => match v {
            JsonValue::Object(_) => v.get("0"),
            _ => None,
        },
        None => None,
    }
}

impl Clone for JsonValue {
    /// A structurally equal copy.
    fn clone(&self) -> (copy: Self)
        ensures
            json_equal(copy, *self),
    {
        duplicate_json(self)
    }
}

impl JsonValue {
    /// The value is an object.
    pub open spec fn is_object_spec(&self) -> bool {
        self is Object
    }

    /// The member `key` of an object (its first member of that name); nothing for
    /// other values.
    pub open spec fn get_spec(&self, key: Seq<char>) -> Option<JsonValue> {
        match self {
            JsonValue::Object(entries) => member_from(entries@, key, 0),
            _ => None,
        }
    }

    pub fn is_object(&self) -> (object: bool)
        ensures
            object == self.is_object_spec(),
    {
        match self {
            JsonValue::Object(_) => true,
            _ => false,
        }
    }

    /// The member `key` of an object.
    #[verifier::loop_isolation(false)]
    pub fn get(&self, key: &str) -> (member: Option<&JsonValue>)
        ensures
            member matches Some(m) ==> self.get_spec(key@) == Some(*m),
            member is None ==> self.get_spec(key@) is None,
    {
        match self {
            JsonValue::Object(entries) => {
                let mut i: usize = 0;
                while i < entries.len()
                    invariant
                        i <= entries@.len(),
                        member_from(entries@, key@, 0) == member_from(entries@, key@, i as int),
                    decreases entries@.len() - i,
                {
                    if str_equal(entries[i].0.as_str(), key) {
                        assert(member_from(entries@, key@, i as int) == Some(entries@[i as int].1));
                        return Some(&entries[i].1);
                    }
                    i = i + 1;
                }
                None
            },
            _ => None,
        }
    }

    /// The text of a string value.
    pub fn as_str(&self) -> (text: Option<&str>)
        ensures
            match self {
                JsonValue::String(s) => text matches Some(t) && t@ == s@,
                _ => text is None,
            },
    {
        match self {
            JsonValue::String(s) => Some(s.as_str()),
            _ => None,
        }
    }

    /// The items of an array value.
    pub fn as_array(&self) -> (items: Option<&Vec<JsonValue>>)
        ensures
            match self {
                JsonValue::Array(v) => items == Some(v),
                _ => items is None,
            },
    {
        match self {
            JsonValue::Array(v) => Some(v),
            _ => None,
        }
    }
}

} // verus!
