//! What clients are told, and how it is written.

use crate::json::{
    encode_response, hex_digit, json_escaped, json_escaped_char, json_string, response_object,
};
use crate::protocol::{CancelRequest, PipelineKey, RegisterRequest, Response};
use vstd::prelude::*;
use vstd::string::*;

verus! {

/// A request names the pipeline of its own project and merge request.
pub proof fn law_request_names_its_pipeline(
    register: RegisterRequest,
    cancel: CancelRequest,
    register_key: PipelineKey,
    cancel_key: PipelineKey,
)
    requires
        call_ensures(RegisterRequest::pipeline_key, (&register,), register_key),
        call_ensures(CancelRequest::pipeline_key, (&cancel,), cancel_key),
    ensures
        register_key.project_id@ == register.project_id@,
        register_key.merge_request_id@ == register.merge_request_id@,
        cancel_key.project_id@ == cancel.project_id@,
        cancel_key.merge_request_id@ == cancel.merge_request_id@,
{
}

/// A key is copied whole.
pub proof fn law_key_copy_is_the_same(key: PipelineKey, copy: PipelineKey)
    requires
        call_ensures(<PipelineKey as Clone>::clone, (&key,), copy),
    ensures
        copy.project_id@ == key.project_id@,
        copy.merge_request_id@ == key.merge_request_id@,
{
}

/// A registration is confirmed, with the very project and the very merge
/// request as the task's identifier.
pub proof fn law_registration_is_confirmed(key: PipelineKey, response: Response)
    requires
        call_ensures(Response::registered, (&key,), response),
    ensures
        response.status@ == "success"@,
        response.message@ == "CI monitoring task registered."@,
        response.task_id matches Some(id) && id@ == key.project_id@ + seq!['-']
            + key.merge_request_id@,
{
    reveal_strlit("-");
    assert("-"@ =~= seq!['-']);
}

/// Within one project two merge requests get the same identifier only if they
/// are the same.
pub proof fn law_identifiers_tell_merge_requests_apart(
    a: PipelineKey,
    b: PipelineKey,
    response_a: Response,
    response_b: Response,
)
    requires
        a.project_id@ == b.project_id@,
        call_ensures(Response::registered, (&a,), response_a),
        call_ensures(Response::registered, (&b,), response_b),
    ensures
        ({
            &&& response_a.task_id matches Some(id_a)
            &&& response_b.task_id matches Some(id_b)
            &&& id_a@ == id_b@ <==> a.merge_request_id@ == b.merge_request_id@
        }),
{
    let start = a.project_id@ + "-"@;
    assert((start + a.merge_request_id@).skip(start.len() as int) =~= a.merge_request_id@);
    assert((start + b.merge_request_id@).skip(start.len() as int) =~= b.merge_request_id@);
}

/// A cancellation is confirmed without an identifier.
pub proof fn law_cancellation_is_confirmed(response: Response)
    requires
        call_ensures(Response::cancelled, (), response),
    ensures
        response.status@ == "success"@,
        response.message@ == "Cancelled matching task."@,
        response.task_id is None,
{
}

/// A cancellation that finds nothing is answered with the very merge request
/// and the very project.
pub proof fn law_missing_task_is_named(key: PipelineKey, response: Response)
    requires
        call_ensures(Response::not_found, (&key,), response),
    ensures
        response.status@ == "error"@,
        response.message@ == "No active polling task found for MR "@ + key.merge_request_id@
            + " and Project "@ + key.project_id@,
        response.task_id is None,
{
}

/// A request that makes no sense is answered with an error.
pub proof fn law_nonsense_is_an_error(response: Response)
    requires
        call_ensures(Response::invalid, (), response),
    ensures
        response.status@ == "error"@,
        response.message@ == "Invalid JSON or unknown command"@,
        response.task_id is None,
{
}

/// The number of a hexadecimal digit.
pub open spec fn hex_value(c: char) -> Option<int> {
    if '0' <= c <= '9' {
        Some(c as int - '0' as int)
    } else if 'a' <= c <= 'f' {
        Some(c as int - 'a' as int + 10)
    } else if 'A' <= c <= 'F' {
        Some(c as int - 'A' as int + 10)
    } else {
        None
    }
}

/// What a JSON reader makes of what stands between the quotes of a string:
/// quotes and control characters have no place there, and a backslash announces
/// a character by a letter or by its number.
pub open spec fn read_json(s: Seq<char>) -> Option<Seq<char>>
    decreases s.len(),
{
    if s.len() == 0 {
        Some(seq![])
    } else if s[0] == '"' || (s[0] as int) < 0x20 {
        None
    } else if s[0] != '\\' {
        match read_json(s.skip(1)) {
            Some(rest) => Some(seq![s[0]] + rest),
            None => None,
        }
    } else if s.len() < 2 {
        None
    } else if s[1] == 'u' {
        if s.len() < 6 {
            None
        } else {
            match (hex_value(s[2]), hex_value(s[3]), hex_value(s[4]), hex_value(s[5])) {
                (Some(a), Some(b), Some(c), Some(d)) => match read_json(s.skip(6)) {
                    Some(rest) => Some(seq![(a * 4096 + b * 256 + c * 16 + d) as char] + rest),
                    None => None,
                },
                _ => None,
            }
        }
    } else {
        let named: Option<int> = if s[1] == '"' || s[1] == '\\' || s[1] == '/' {
            Some(s[1] as int)
        } else if s[1] == 'b' {
            Some(0x08)
        } else if s[1] == 'f' {
            Some(0x0c)
        } else if s[1] == 'n' {
            Some(0x0a)
        } else if s[1] == 'r' {
            Some(0x0d)
        } else if s[1] == 't' {
            Some(0x09)
        } else {
            None
        };
        match (named, read_json(s.skip(2))) {
            (Some(n), Some(rest)) => Some(seq![n as char] + rest),
            _ => None,
        }
    }
}

/// The two digits that announce a control character give its number.
proof fn lemma_escape_by_number(c: char)
    requires
        json_escaped_char(c).len() == 6,
    ensures
        ({
            let e = json_escaped_char(c);
            &&& hex_value(e[4]) == Some(c as int / 16)
            &&& hex_value(e[5]) == Some(c as int % 16)
            &&& e[0] == '\\' && e[1] == 'u' && e[2] == '0' && e[3] == '0'
            &&& ((c as int / 16) * 16 + c as int % 16) as char == c
        }),
{
    let u = c as int;
    let high = hex_digit(u / 16);
    let low = hex_digit(u % 16);
    assert(high as int == '0' as int + u / 16);
    if u % 16 < 10 {
        assert(low as int == '0' as int + u % 16);
    } else {
        assert(low as int == 'a' as int + u % 16 - 10);
    }
}

/// A JSON reader reads a text back from what was written for it, whatever the
/// text is.
pub proof fn law_json_text_is_read_back(text: Seq<char>)
    ensures
        read_json(json_escaped(text)) == Some(text),
        json_string(text) == seq!['"'] + json_escaped(text) + seq!['"'],
    decreases text.len(),
{
    let all = json_escaped(text);
    if text.len() == 0 {
        assert(text =~= seq![]);
    } else {
        let c = text.first();
        let e = json_escaped_char(c);
        let rest = json_escaped(text.drop_first());
        law_json_text_is_read_back(text.drop_first());
        assert(all == e + rest);
        assert(all.skip(e.len() as int) =~= rest);
        assert(seq![c] + text.drop_first() =~= text);
        assert(all[0] == e[0]);
        if e.len() > 1 {
            assert(all[1] == e[1]);
        }
        if e.len() == 6 {
            assert(all[2] == e[2] && all[3] == e[3] && all[4] == e[4] && all[5] == e[5]);
            lemma_escape_by_number(c);
        }
    }
}

/// What is sent for a response is a JSON object from which its very status, its
/// very message and its very identifier are read, each under its own name; an
/// absent identifier has no member.
pub proof fn law_response_is_read_back(response: Response, json: String)
    requires
        call_ensures(encode_response, (&response,), json),
    ensures
        exists|status: Seq<char>, message: Seq<char>|
            {
                &&& read_json(status) == Some(response.status@)
                &&& read_json(message) == Some(response.message@)
                &&& response.task_id is None ==> json@ == #[trigger] (
                "{\"status\":"@ + (seq!['"'] + status + seq!['"']) + ",\"message\":"@ + (seq!['"']
                    + message + seq!['"'])) + "}"@
                &&& response.task_id matches Some(id) ==> exists|written: Seq<char>|
                    {
                        &&& read_json(written) == Some(id@)
                        &&& json@ == "{\"status\":"@ + (seq!['"'] + status + seq!['"'])
                            + ",\"message\":"@ + (seq!['"'] + message + seq!['"'])
                            + ",\"task_id\":"@ + #[trigger] (seq!['"'] + written + seq!['"'])
                            + "}"@
                    }
            },
{
    let status = json_escaped(response.status@);
    let message = json_escaped(response.message@);
    law_json_text_is_read_back(response.status@);
    law_json_text_is_read_back(response.message@);
    let start = "{\"status\":"@ + (seq!['"'] + status + seq!['"']) + ",\"message\":"@ + (seq!['"']
        + message + seq!['"']);
    match response.task_id {
        Some(id) => {
            let written = json_escaped(id@);
            law_json_text_is_read_back(id@);
            assert(json@ =~= start + ",\"task_id\":"@ + (seq!['"'] + written + seq!['"'])
                + "}"@);
        },
        None => {
            assert(json@ =~= start + "}"@);
        },
    }
}

/// The members that are put together stand each under its own name; if one of
/// them could not be written, an error is sent in place of all.
pub proof fn law_members_stand_under_their_names<E>(
    status: Result<String, E>,
    message: Result<String, E>,
    task_id: Option<Result<String, E>>,
    json: String,
)
    requires
        call_ensures(response_object::<E>, (status, message, task_id), json),
    ensures
        status is Err || message is Err || (task_id matches Some(id) && id is Err) ==> json@
            == "{\"status\":\"error\",\"message\":\"Internal server error during response serialization.\"}"@,
        status matches Ok(s) ==> message matches Ok(m) ==> {
            &&& task_id is None ==> json@ == "{\"status\":"@ + s@ + ",\"message\":"@ + m@ + "}"@
            &&& task_id matches Some(Ok(t)) ==> json@ == "{\"status\":"@ + s@ + ",\"message\":"@
                + m@ + ",\"task_id\":"@ + t@ + "}"@
        },
{
    if let Ok(s) = status {
        if let Ok(m) = message {
            let start = "{\"status\":"@ + s@ + ",\"message\":"@ + m@;
            assert(start + seq![] =~= start);
            if let Some(Ok(t)) = task_id {
                assert(start + (",\"task_id\":"@ + t@) =~= start + ",\"task_id\":"@ + t@);
            }
        }
    }
}

} // verus!
