//! The reply of the chat-completion service: the status check, the path to
//! the reply's text, and the diagnostics for the failures.

use vstd::prelude::*;
use vstd::string::StringExecFns;

verus! {

/// A JSON value as the reply handling reads it. A number keeps its text; an
/// object keeps its members in order.
pub enum Json {
    Null,
    Bool(bool),
    Number(String),
    Str(String),
    Array(Vec<Json>),
    Object(Vec<(String, Json)>),
}

/// The value of the first member named `key` at or after index `i`.
pub open spec fn find_member(fields: Seq<(String, Json)>, key: Seq<char>, i: int) -> Option<Json>
    decreases fields.len() - i,
{
    if i < 0 || i >= fields.len() {
        None
    } else if fields[i].0@ == key {
        Some(fields[i].1)
    } else {
        find_member(fields, key, i + 1)
    }
}

/// The member `key` of an object; nothing for a value of another kind.
pub open spec fn member(v: Json, key: Seq<char>) -> Option<Json> {
    match v {
        Json::Object(fields) => find_member(fields@, key, 0),
        _ => None,
    }
}

/// The first element of an array; nothing for an empty array or a value of
/// another kind.
pub open spec fn first_element(v: Json) -> Option<Json> {
    match v {
        Json::Array(items) => if items@.len() > 0 {
            Some(items@[0])
        } else {
            None
        },
        _ => None,
    }
}

/// The text of a string value.
pub open spec fn text_of(v: Json) -> Option<Seq<char>> {
    match v {
        Json::Str(s) => Some(s@),
        _ => None,
    }
}

/// The text at `choices[0].message.content`, if the reply has one there.
pub open spec fn reply_content(v: Json) -> Option<Seq<char>> {
    match member(v, "choices"@) {
        Some(choices) => match first_element(choices) {
            Some(choice) => match member(choice, "message"@) {
                Some(message) => match member(message, "content"@) {
                    Some(content) => text_of(content),
                    None => None,
                },
                None => None,
            },
            None => None,
        },
        None => None,
    }
}

/// Whether an HTTP status code is a success, that is in 200 to 299.
pub open spec fn is_success(code: u16) -> bool {
    200 <= code && code < 300
}

/// The diagnostic for a reply whose status is not a success.
pub open spec fn status_failure_spec(status: Seq<char>, body: Seq<char>) -> Seq<char> {
    "Request failed with status "@ + status + ": "@ + body
}

/// The diagnostic for a reply without text at the expected place.
pub open spec fn unexpected_format_spec(json_text: Seq<char>) -> Seq<char> {
    "Unexpected response format: "@ + json_text
}

impl Json {
    /// The member `key` of this value, if it is an object that has one.
    pub fn member(&self, key: &str) -> (r: Option<&Json>)
        ensures
            match r {
                Some(x) => member(*self, key@) == Some(*x),
                None => member(*self, key@) is None,
            },
    {
        match self {
            Json::Object(fields) => {
                let name = String::from_str(key);
                let mut i: usize = 0;
                while i < fields.len()
                    invariant
                        i <= fields@.len(),
                        name@ == key@,
                        member(*self, key@) == find_member(fields@, key@, 0),
                        find_member(fields@, key@, 0) == find_member(fields@, key@, i as int),
                    decreases fields@.len() - i,
                {
                    if fields[i].0 == name {
                        return Some(&fields[i].1);
                    }
                    i = i + 1;
                }
                None
            },
            _ => None,
        }
    }

    /// The first element of this value, if it is a non-empty array.
    pub fn first_element(&self) -> (r: Option<&Json>)
        ensures
            match r {
                Some(x) => first_element(*self) == Some(*x),
                None => first_element(*self) is None,
            },
    {
        match self {
            Json::Array(items) => if items.len() > 0 {
                Some(&items[0])
            } else {
                None
            },
            _ => None,
        }
    }

    /// The text of this value, if it is a string.
    pub fn as_text(&self) -> (r: Option<String>)
        ensures
            match r {
                Some(s) => text_of(*self) == Some(s@),
                None => text_of(*self) is None,
            },
    {
        match self {
            Json::Str(s) => Some(s.clone()),
            _ => None,
        }
    }
}

/// The reply's text at `choices[0].message.content`; nothing where the reply
/// has another shape.
pub fn extract_content(reply: &Json) -> (r: Option<String>)
    ensures
        match r {
            Some(s) => reply_content(*reply) == Some(s@),
            None => reply_content(*reply) is None,
        },
{
    let choices = match reply.member("choices") {
        Some(c) => c,
        None => return None,
    };
    let choice = match choices.first_element() {
        Some(c) => c,
        None => return None,
    };
    let message = match choice.member("message") {
        Some(m) => m,
        None => return None,
    };
    match message.member("content") {
        Some(content) => content.as_text(),
        None => None,
    }
}

/// Whether a reply with this status code is read further.
pub fn is_success_status(code: u16) -> (r: bool)
    ensures
        r == is_success(code),
{
    200 <= code && code < 300
}

/// The diagnostic for a failed status, given the status as shown and the
/// body read as text.
pub fn status_failure_message(status: &str, body: &str) -> (r: String)
    ensures
        r@ == status_failure_spec(status@, body@),
{
    let r = String::from_str("Request failed with status ");
    let r = r.concat(status);
    let r = r.concat(": ");
    r.concat(body)
}

/// The diagnostic for a reply of another shape, given the reply as JSON text.
pub fn unexpected_format_message(json_text: &str) -> (r: String)
    ensures
        r@ == unexpected_format_spec(json_text@),
{
    let r = String::from_str("Unexpected response format: ");
    r.concat(json_text)
}

/// What a successful reply makes the program write: its text and a newline
/// on standard output, or else the diagnostic that echoes the reply, given
/// as JSON text in `rendered`.
pub fn reply_outcome(reply: &Json, rendered: &str) -> (r: Result<String, String>)
    ensures
        match reply_content(*reply) {
            Some(text) => r matches Ok(out) && out@ == text.push('\n'),
            None => r matches Err(msg) && msg@ == unexpected_format_spec(rendered@),
        },
{
    match extract_content(reply) {
        Some(text) => {
            let mut out = text;
            out.append("\n");
            proof {
                reveal_strlit("\n");
                assert(out@ =~= reply_content(*reply)->0.push('\n'));
            }
            Ok(out)
        },
        None => Err(unexpected_format_message(rendered)),
    }
}

} // verus!
