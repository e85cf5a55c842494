//! Responses as the JSON texts that go over the wire.

use crate::protocol::{Response, ResponseView};
use vstd::prelude::*;
use vstd::string::*;

verus! {

/// The error type of the JSON serialiser.
#[verifier::external_type_specification]
#[verifier::external_body]
pub struct ExJsonError(serde_json::Error);

/// The lower-case hexadecimal digit of a number below 16.
pub open spec fn hex_digit(n: int) -> char {
    if n < 10 {
        ('0' as int + n) as char
    } else {
        ('a' as int + n - 10) as char
    }
}

/// One character as it stands inside a JSON string.
pub open spec fn json_escaped_char(c: char) -> Seq<char> {
    let u = c as int;
    if c == '"' || c == '\\' {
        seq!['\\', c]
    } else if u == 0x08 {
        seq!['\\', 'b']
    } else if u == 0x09 {
        seq!['\\', 't']
    } else if u == 0x0a {
        seq!['\\', 'n']
    } else if u == 0x0c {
        seq!['\\', 'f']
    } else if u == 0x0d {
        seq!['\\', 'r']
    } else if u < 0x20 {
        seq!['\\', 'u', '0', '0', hex_digit(u / 16), hex_digit(u % 16)]
    } else {
        seq![c]
    }
}

/// A text as it stands inside a JSON string.
pub open spec fn json_escaped(s: Seq<char>) -> Seq<char>
    decreases s.len(),
{
    if s.len() == 0 {
        seq![]
    } else {
        json_escaped_char(s.first()) + json_escaped(s.drop_first())
    }
}

/// A text as a JSON string.
pub open spec fn json_string(s: Seq<char>) -> Seq<char> {
    seq!['"'] + json_escaped(s) + seq!['"']
}

/// `serde_json::to_string` on a text, of which is believed that it succeeds
/// and returns the text between quotes, with quotes, backslashes and control
/// characters escaped.
#[verifier::external_body]
pub(crate) fn to_json_string(s: &str) -> (json: Result<String, serde_json::Error>)
    ensures
        json is Ok,
        json matches Ok(text) ==> text@ == json_string(s@),
{
    serde_json::to_string(s)
}

/// A response as a JSON object; an absent task identifier gets no member.
pub open spec fn response_json(response: ResponseView) -> Seq<char> {
    "{\"status\":"@ + json_string(response.status) + ",\"message\":"@ + json_string(
        response.message,
    ) + (match response.task_id {
        Some(id) => ",\"task_id\":"@ + json_string(id),
        None => seq![],
    }) + "}"@
}

/// What is sent in place of a response that could not be turned into JSON.
pub open spec fn fallback_json() -> Seq<char> {
    "{\"status\":\"error\",\"message\":\"Internal server error during response serialization.\"}"@
}

/// The three members of a response put together; the fallback where one of
/// them could not be turned into JSON.
pub fn response_object<E>(
    status: Result<String, E>,
    message: Result<String, E>,
    task_id: Option<Result<String, E>>,
) -> (json: String)
    ensures
        json@ == (match (status, message, task_id) {
            (Ok(s), Ok(m), None) => "{\"status\":"@ + s@ + ",\"message\":"@ + m@ + seq![] + "}"@,
            (Ok(s), Ok(m), Some(Ok(t))) => "{\"status\":"@ + s@ + ",\"message\":"@ + m@ + (
            ",\"task_id\":"@ + t@) + "}"@,
            _ => fallback_json(),
        }),
{
    let fallback =
        "{\"status\":\"error\",\"message\":\"Internal server error during response serialization.\"}";
    let mut json = "{\"status\":".to_string();
    match status {
        Ok(s) => json.append(s.as_str()),
        Err(_) => return fallback.to_string(),
    }
    json.append(",\"message\":");
    match message {
        Ok(m) => json.append(m.as_str()),
        Err(_) => return fallback.to_string(),
    }
    match task_id {
        Some(Ok(t)) => {
            json.append(",\"task_id\":");
            json.append(t.as_str());
        },
        Some(Err(_)) => return fallback.to_string(),
        None => {},
    }
    json.append("}");
    json
}

/// Turns a response into the JSON object that is sent to the client.
pub fn encode_response(response: &Response) -> (json: String)
    ensures
        json@ == response_json(response@),
{
    let status = to_json_string(response.status.as_str());
    let message = to_json_string(response.message.as_str());
    let task_id = match &response.task_id {
        Some(id) => Some(to_json_string(id.as_str())),
        None => None,
    };
    response_object(status, message, task_id)
}

} // verus!
