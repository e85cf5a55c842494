//! What becomes of a request, and of the tasks that are running.

use crate::connection::{
    displace_task, handle_cancel_ci, handle_register_ci, ClientAction, ClientConnection,
    ClientEvent,
};
use crate::json::{encode_response, json_escaped, response_json};
use crate::laws::answers::{law_json_text_is_read_back, read_json};
use crate::numbers::TaskNumbers;
use crate::protocol::{
    CancelRequest, CommandPayload, PipelineKey, PipelineName, RegisterRequest, Response,
    ResponseView,
};
use crate::registry::{enumerates, Registry};
use crate::text::utf8_lossy;
use vstd::prelude::*;
use vstd::string::*;
use vstd::utf8::*;

verus! {

/// A new registry watches nothing.
pub proof fn law_new_registry_is_empty(registry: Registry, key: PipelineName)
    requires
        call_ensures(Registry::new, (), registry),
    ensures
        !registry@.contains_key(key),
{
}

/// What is entered for a pipeline is what is taken out of it next; the entry
/// that it replaces is handed back; every other pipeline keeps its task.
pub proof fn law_entered_task_is_taken_out(
    entering: &mut Registry,
    leaving: &mut Registry,
    key: PipelineKey,
    task: u64,
    replaced: Option<u64>,
    taken: Option<u64>,
)
    requires
        call_ensures(Registry::insert, (entering, &key, task), replaced),
        final(entering)@ == old(leaving)@,
        call_ensures(Registry::remove, (leaving, &key), taken),
    ensures
        taken == Some(task),
        replaced is Some <==> old(entering)@.contains_key(
            (key.project_id@, key.merge_request_id@),
        ),
        replaced matches Some(old_task) ==> old_task == old(entering)@[(
            key.project_id@,
            key.merge_request_id@,
        )],
        !final(leaving)@.contains_key((key.project_id@, key.merge_request_id@)),
        forall|other: PipelineName|
            other != (key.project_id@, key.merge_request_id@) ==> {
                &&& #[trigger] final(leaving)@.contains_key(other) == old(
                    entering,
                )@.contains_key(other)
                &&& old(entering)@.contains_key(other) ==> final(leaving)@[other] == old(
                    entering,
                )@[other]
            },
{
}

/// To take out the task of a pipeline hands back that very task, if there is
/// one, and leaves every other pipeline alone.
pub proof fn law_taking_out_is_exact(registry: &mut Registry, key: PipelineKey, taken: Option<u64>)
    requires
        call_ensures(Registry::remove, (registry, &key), taken),
    ensures
        ({
            let name = (key.project_id@, key.merge_request_id@);
            &&& taken is Some <==> old(registry)@.contains_key(name)
            &&& taken matches Some(task) ==> task == old(registry)@[name]
            &&& !final(registry)@.contains_key(name)
            &&& forall|other: PipelineName|
                other != name ==> {
                    &&& #[trigger] final(registry)@.contains_key(other) == old(
                        registry,
                    )@.contains_key(other)
                    &&& old(registry)@.contains_key(other) ==> final(registry)@[other] == old(
                        registry,
                    )@[other]
                }
        }),
{
}

/// To drain a registry empties it and hands back the task of each pipeline,
/// each once for each pipeline and no other.
pub proof fn law_drain_hands_back_every_task(registry: &mut Registry, tasks: Vec<u64>)
    requires
        call_ensures(Registry::drain, (registry,), tasks),
    ensures
        forall|key: PipelineName| !(#[trigger] final(registry)@.contains_key(key)),
        exists|names: Seq<PipelineName>|
            {
                &&& #[trigger] names.no_duplicates()
                &&& names.len() == tasks@.len()
                &&& forall|key: PipelineName| #[trigger]
                    old(registry)@.contains_key(key) <==> names.contains(key)
                &&& forall|i: int|
                    #![trigger tasks@[i]]
                    0 <= i < names.len() ==> tasks@[i] == old(registry)@[names[i]]
            },
{
    let table = old(registry)@;
    let names = choose|names: Seq<PipelineName>| #[trigger] enumerates(names, tasks@, table);
    assert forall|key: PipelineName| #[trigger] table.contains_key(key) <==> names.contains(
        key,
    ) by {
        assert(names.to_set().contains(key) <==> table.dom().contains(key));
    }
    assert(names.no_duplicates());
}

/// No two numbers that are issued one after the other are the same, and what is
/// issued is never below what was issued before.
pub proof fn law_issued_numbers_rise(
    numbers: &mut TaskNumbers,
    later: &mut TaskNumbers,
    first: Option<u64>,
    second: Option<u64>,
)
    requires
        call_ensures(TaskNumbers::issue, (numbers,), first),
        final(numbers)@ <= old(later)@,
        call_ensures(TaskNumbers::issue, (later,), second),
    ensures
        first matches Some(a) ==> second matches Some(b) ==> a < b,
        first is None ==> second is None,
        old(numbers)@ < u64::MAX ==> first is Some,
        first matches Some(a) ==> old(numbers)@ <= a < final(numbers)@,
{
}

/// Numbers are issued from the start.
pub proof fn law_new_issuer_can_issue(numbers: TaskNumbers)
    requires
        call_ensures(TaskNumbers::new, (), numbers),
    ensures
        numbers@ < u64::MAX,
{
}

/// A conversation begins by reading as much as the limit allows.
pub proof fn law_conversation_begins_with_reading(
    connection: ClientConnection,
    action: ClientAction,
)
    requires
        call_ensures(ClientConnection::new, (), connection),
        call_ensures(ClientConnection::action, (&connection,), action),
    ensures
        connection is Reading,
        action matches ClientAction::Read { limit } && limit == 1024,
{
}

/// What is decoded is all that was received: encoding the text gives back the
/// very bytes, however many there are. What is no UTF-8 is decoded as
/// `String::from_utf8_lossy` has it. If nothing was received, the conversation
/// is over. No task is touched.
pub proof fn law_all_that_was_received_is_decoded(
    bytes: Vec<u8>,
    registry: &mut Registry,
    next: ClientConnection,
    action: ClientAction,
)
    requires
        call_ensures(
            ClientConnection::advance,
            (ClientConnection::Reading, ClientEvent::Received { bytes }, registry),
            next,
        ),
        call_ensures(ClientConnection::action, (&next,), action),
    ensures
        final(registry)@ == old(registry)@,
        bytes@.len() == 0 <==> action is Close,
        bytes@.len() > 0 <==> action is Decode,
        action matches ClientAction::Decode { text } ==> {
            &&& valid_utf8(bytes@) ==> encode_utf8(text@) == bytes@
            &&& !valid_utf8(bytes@) ==> text@ == utf8_lossy(bytes@)
        },
{
    if valid_utf8(bytes@) {
        decode_utf8_encode_utf8(bytes@);
    }
}

/// Two requests in UTF-8 are decoded alike only if they are the same bytes.
pub proof fn law_requests_are_told_apart(
    a: Vec<u8>,
    b: Vec<u8>,
    registry_a: &mut Registry,
    registry_b: &mut Registry,
    next_a: ClientConnection,
    next_b: ClientConnection,
)
    requires
        a@.len() > 0,
        b@.len() > 0,
        valid_utf8(a@),
        valid_utf8(b@),
        call_ensures(
            ClientConnection::advance,
            (ClientConnection::Reading, ClientEvent::Received { bytes: a }, registry_a),
            next_a,
        ),
        call_ensures(
            ClientConnection::advance,
            (ClientConnection::Reading, ClientEvent::Received { bytes: b }, registry_b),
            next_b,
        ),
    ensures
        ({
            &&& next_a matches ClientConnection::Decoding { text: text_a }
            &&& next_b matches ClientConnection::Decoding { text: text_b }
            &&& text_a@ == text_b@ <==> a@ == b@
        }),
{
    decode_utf8_encode_utf8(a@);
    decode_utf8_encode_utf8(b@);
}

/// A failed read ends the conversation.
pub proof fn law_failed_read_ends_the_conversation(
    registry: &mut Registry,
    next: ClientConnection,
    action: ClientAction,
)
    requires
        call_ensures(
            ClientConnection::advance,
            (ClientConnection::Reading, ClientEvent::ReadFailed, registry),
            next,
        ),
        call_ensures(ClientConnection::action, (&next,), action),
    ensures
        action is Close,
        final(registry)@ == old(registry)@,
{
}

/// A decoded registration takes out the task of its pipeline, which is aborted
/// next, or starts a task at once if there is none. The request is kept whole.
pub proof fn law_registration_makes_way(
    text: String,
    request: RegisterRequest,
    registry: &mut Registry,
    next: ClientConnection,
    action: ClientAction,
)
    requires
        call_ensures(
            ClientConnection::advance,
            (
                ClientConnection::Decoding { text },
                ClientEvent::Decoded { command: Some(CommandPayload::RegisterCi(request)) },
                registry,
            ),
            next,
        ),
        call_ensures(ClientConnection::action, (&next,), action),
    ensures
        ({
            let name = (request.project_id@, request.merge_request_id@);
            &&& old(registry)@.contains_key(name) ==> {
                &&& action matches ClientAction::Abort { task }
                &&& task == old(registry)@[name]
                &&& next matches ClientConnection::Replacing { request: r, task: t }
                &&& t == task
                &&& r.project_id@ == request.project_id@
                &&& r.merge_request_id@ == request.merge_request_id@
                &&& r.tmux_pane_id@ == request.tmux_pane_id@
            }
            &&& !old(registry)@.contains_key(name) ==> {
                &&& action matches ClientAction::Start { key, pane }
                &&& key.project_id@ == request.project_id@
                &&& key.merge_request_id@ == request.merge_request_id@
                &&& pane@ == request.tmux_pane_id@
            }
            &&& final(registry)@ == old(registry)@.remove(name)
        }),
{
    let name = (request.project_id@, request.merge_request_id@);
    if !old(registry)@.contains_key(name) {
        assert(old(registry)@.remove(name) =~= old(registry)@);
    }
}

/// Once the old task is aborted, a task is started for the very pipeline and
/// the very pane of the request, and no other task is touched.
pub proof fn law_replacement_is_started(
    request: RegisterRequest,
    task: u64,
    registry: &mut Registry,
    next: ClientConnection,
    action: ClientAction,
)
    requires
        call_ensures(
            ClientConnection::advance,
            (
                ClientConnection::Replacing { request, task },
                ClientEvent::Aborted,
                registry,
            ),
            next,
        ),
        call_ensures(ClientConnection::action, (&next,), action),
    ensures
        final(registry)@ == old(registry)@,
        action matches ClientAction::Start { key, pane } && {
            &&& key.project_id@ == request.project_id@
            &&& key.merge_request_id@ == request.merge_request_id@
            &&& pane@ == request.tmux_pane_id@
        },
{
}

/// A task that was started is entered for the pipeline of the request, whatever
/// stands there, every other pipeline keeps its task, and the client is told
/// of success, with project and merge request as the task's identifier.
pub proof fn law_started_task_is_entered(
    request: RegisterRequest,
    task: u64,
    registry: &mut Registry,
    next: ClientConnection,
    action: ClientAction,
)
    requires
        call_ensures(
            ClientConnection::advance,
            (
                ClientConnection::Starting { request },
                ClientEvent::Started { task },
                registry,
            ),
            next,
        ),
        call_ensures(ClientConnection::action, (&next,), action),
    ensures
        final(registry)@ == old(registry)@.insert(
            (request.project_id@, request.merge_request_id@),
            task,
        ),
        action matches ClientAction::Send { json } && exists|id: Seq<char>|
            {
                &&& read_json(id) == Some(
                    request.project_id@ + "-"@ + request.merge_request_id@,
                )
                &&& json@
                    == "{\"status\":\"success\",\"message\":\"CI monitoring task registered.\",\"task_id\":\""@
                    + #[trigger] (id + "\"}"@)
            },
{
    let full = request.project_id@ + "-"@ + request.merge_request_id@;
    let id = json_escaped(full);
    law_json_text_is_read_back(full);
    reveal_strlit("success");
    reveal_strlit("CI monitoring task registered.");
    lemma_plain_text("success"@);
    lemma_plain_text("CI monitoring task registered."@);
    reveal_strlit("{\"status\":");
    reveal_strlit(",\"message\":");
    reveal_strlit(",\"task_id\":");
    reveal_strlit("}");
    reveal_strlit("\"}");
    reveal_strlit(
        "{\"status\":\"success\",\"message\":\"CI monitoring task registered.\",\"task_id\":\"",
    );
    if let ClientAction::Send { json } = action {
        assert(json@
            =~= "{\"status\":\"success\",\"message\":\"CI monitoring task registered.\",\"task_id\":\""@
            + (id + "\"}"@));
    }
}

/// A text without quotes, backslashes and control characters is written as it
/// is.
proof fn lemma_plain_text(s: Seq<char>)
    requires
        forall|i: int|
            0 <= i < s.len() ==> #[trigger] s[i] != '"' && s[i] != '\\' && s[i] as int >= 0x20,
    ensures
        json_escaped(s) == s,
    decreases s.len(),
{
    if s.len() > 0 {
        let rest = s.drop_first();
        assert forall|i: int| 0 <= i < rest.len() implies #[trigger] rest[i] != '"' && rest[i]
            != '\\' && rest[i] as int >= 0x20 by {
            assert(rest[i] == s[i + 1]);
        }
        lemma_plain_text(rest);
        assert(s[0] != '"');
        assert(json_escaped(s) =~= seq![s.first()] + rest);
        assert(seq![s.first()] + rest =~= s);
    } else {
        assert(json_escaped(s) =~= s);
    }
}

/// A decoded cancellation takes out the task of its pipeline, which is aborted
/// next, before the client is told of success; if there is none, the client is
/// told so with the very merge request and the very project, and no task is
/// touched.
pub proof fn law_cancellation_aborts_its_task(
    text: String,
    request: CancelRequest,
    registry: &mut Registry,
    next: ClientConnection,
    action: ClientAction,
)
    requires
        call_ensures(
            ClientConnection::advance,
            (
                ClientConnection::Decoding { text },
                ClientEvent::Decoded { command: Some(CommandPayload::CancelCi(request)) },
                registry,
            ),
            next,
        ),
        call_ensures(ClientConnection::action, (&next,), action),
    ensures
        ({
            let name = (request.project_id@, request.merge_request_id@);
            &&& final(registry)@ == old(registry)@.remove(name)
            &&& old(registry)@.contains_key(name) ==> {
                &&& action matches ClientAction::Abort { task }
                &&& task == old(registry)@[name]
                &&& next matches ClientConnection::Cancelling { response, .. }
                &&& response.status@ == "success"@
                &&& response.message@ == "Cancelled matching task."@
                &&& response.task_id is None
            }
            &&& !old(registry)@.contains_key(name) ==> {
                &&& action matches ClientAction::Send { json }
                &&& exists|message: Seq<char>|
                    {
                        &&& read_json(message) == Some(
                            "No active polling task found for MR "@ + request.merge_request_id@
                                + " and Project "@ + request.project_id@,
                        )
                        &&& json@ == "{\"status\":\"error\",\"message\":\""@ + #[trigger] (message
                            + "\"}"@)
                    }
            }
        }),
{
    let name = (request.project_id@, request.merge_request_id@);
    if !old(registry)@.contains_key(name) {
        assert(old(registry)@.remove(name) =~= old(registry)@);
        let full = "No active polling task found for MR "@ + request.merge_request_id@
            + " and Project "@ + request.project_id@;
        if let ClientAction::Send { json } = action {
            lemma_error_json(full, json@);
        }
    }
}

/// What is sent for an error.
proof fn lemma_error_json(full: Seq<char>, json: Seq<char>)
    requires
        json == response_json(
            ResponseView { status: "error"@, message: full, task_id: None },
        ),
    ensures
        read_json(json_escaped(full)) == Some(full),
        json == "{\"status\":\"error\",\"message\":\""@ + (json_escaped(full) + "\"}"@),
{
    law_json_text_is_read_back(full);
    reveal_strlit("error");
    lemma_plain_text("error"@);
    reveal_strlit("{\"status\":");
    reveal_strlit(",\"message\":");
    reveal_strlit("}");
    reveal_strlit("\"}");
    reveal_strlit("{\"status\":\"error\",\"message\":\"");
    assert(json =~= "{\"status\":\"error\",\"message\":\""@ + (json_escaped(full) + "\"}"@));
}

/// What cannot be decoded is answered with an error, and no task is touched.
pub proof fn law_undecodable_request_is_an_error(
    text: String,
    registry: &mut Registry,
    next: ClientConnection,
    action: ClientAction,
)
    requires
        call_ensures(
            ClientConnection::advance,
            (
                ClientConnection::Decoding { text },
                ClientEvent::Decoded { command: None },
                registry,
            ),
            next,
        ),
        call_ensures(ClientConnection::action, (&next,), action),
    ensures
        final(registry)@ == old(registry)@,
        action matches ClientAction::Send { json } && json@
            == "{\"status\":\"error\",\"message\":\"Invalid JSON or unknown command\"}"@,
{
    if let ClientAction::Send { json } = action {
        let full = "Invalid JSON or unknown command"@;
        lemma_error_json(full, json@);
        reveal_strlit("Invalid JSON or unknown command");
        lemma_plain_text(full);
        reveal_strlit("\"}");
        reveal_strlit("{\"status\":\"error\",\"message\":\"");
        reveal_strlit("{\"status\":\"error\",\"message\":\"Invalid JSON or unknown command\"}");
        assert(json@
            =~= "{\"status\":\"error\",\"message\":\"Invalid JSON or unknown command\"}"@);
    }
}

/// Once a cancelled task is aborted, the client is sent the very response that
/// was waiting, and no task is touched.
pub proof fn law_waiting_response_is_sent(
    task: u64,
    response: Response,
    registry: &mut Registry,
    next: ClientConnection,
    action: ClientAction,
    encoded: String,
)
    requires
        call_ensures(
            ClientConnection::advance,
            (
                ClientConnection::Cancelling { task, response },
                ClientEvent::Aborted,
                registry,
            ),
            next,
        ),
        call_ensures(ClientConnection::action, (&next,), action),
        call_ensures(encode_response, (&response,), encoded),
    ensures
        final(registry)@ == old(registry)@,
        action matches ClientAction::Send { json } && json@ == encoded@,
{
}

/// After the answer the conversation is over, and no task is touched.
pub proof fn law_answer_ends_the_conversation(
    json: String,
    registry: &mut Registry,
    next: ClientConnection,
    action: ClientAction,
)
    requires
        call_ensures(
            ClientConnection::advance,
            (ClientConnection::Answering { json }, ClientEvent::Sent, registry),
            next,
        ),
        call_ensures(ClientConnection::action, (&next,), action),
    ensures
        action is Close,
        final(registry)@ == old(registry)@,
{
}

/// What is done for a client is done with the very things that the conversation
/// holds.
pub proof fn law_action_is_about_the_conversation(
    connection: ClientConnection,
    action: ClientAction,
)
    requires
        call_ensures(ClientConnection::action, (&connection,), action),
    ensures
        connection is Reading ==> (action matches ClientAction::Read { limit } && limit == 1024),
        connection matches ClientConnection::Decoding { text } ==> (
        action matches ClientAction::Decode { text: t } && t@ == text@),
        connection matches ClientConnection::Replacing { task, .. } ==> (
        action matches ClientAction::Abort { task: t } && t == task),
        connection matches ClientConnection::Cancelling { task, .. } ==> (
        action matches ClientAction::Abort { task: t } && t == task),
        connection matches ClientConnection::Starting { request } ==> {
            &&& action matches ClientAction::Start { key, pane }
            &&& key.project_id@ == request.project_id@
            &&& key.merge_request_id@ == request.merge_request_id@
            &&& pane@ == request.tmux_pane_id@
        },
        connection matches ClientConnection::Answering { json } ==> (
        action matches ClientAction::Send { json: j } && j@ == json@),
        connection is Closed <==> action is Close,
{
}

/// What a conversation does not await changes nothing.
pub proof fn law_conversation_ignores_what_it_does_not_await(
    connection: ClientConnection,
    event: ClientEvent,
    registry: &mut Registry,
    next: ClientConnection,
)
    requires
        call_ensures(ClientConnection::advance, (connection, event, registry), next),
        connection is Reading ==> !(event is Received || event is ReadFailed),
        connection is Decoding ==> !(event is Decoded),
        connection is Replacing || connection is Cancelling ==> !(event is Aborted),
        connection is Starting ==> !(event is Started),
        connection is Answering ==> !(event is Sent),
    ensures
        next@ == connection@,
        final(registry)@ == old(registry)@,
{
}

/// The handlers do to the registry what the requests ask for, and answer so.
pub proof fn law_handlers_serve_their_pipeline(
    register: RegisterRequest,
    cancel: CancelRequest,
    task: u64,
    displacing: &mut Registry,
    registering: &mut Registry,
    cancelling: &mut Registry,
    displaced: Option<u64>,
    registered: Response,
    cancelled: (Option<u64>, Response),
)
    requires
        call_ensures(displace_task, (displacing, &register), displaced),
        call_ensures(handle_register_ci, (registering, &register, task), registered),
        call_ensures(handle_cancel_ci, (cancelling, &cancel), cancelled),
    ensures
        ({
            let name = (register.project_id@, register.merge_request_id@);
            &&& final(displacing)@ == old(displacing)@.remove(name)
            &&& displaced is Some <==> old(displacing)@.contains_key(name)
            &&& displaced matches Some(t) ==> t == old(displacing)@[name]
            &&& final(registering)@ == old(registering)@.insert(name, task)
            &&& registered.status@ == "success"@
            &&& registered.message@ == "CI monitoring task registered."@
            &&& registered.task_id matches Some(id)
            &&& id@ == register.project_id@ + "-"@ + register.merge_request_id@
        }),
        ({
            let name = (cancel.project_id@, cancel.merge_request_id@);
            &&& final(cancelling)@ == old(cancelling)@.remove(name)
            &&& cancelled.0 is Some <==> old(cancelling)@.contains_key(name)
            &&& cancelled.0 matches Some(t) ==> t == old(cancelling)@[name]
            &&& cancelled.1.task_id is None
            &&& cancelled.0 is Some ==> cancelled.1.status@ == "success"@
                && cancelled.1.message@ == "Cancelled matching task."@
            &&& cancelled.0 is None ==> cancelled.1.status@ == "error"@ && cancelled.1.message@
                == "No active polling task found for MR "@ + cancel.merge_request_id@
                + " and Project "@ + cancel.project_id@
        }),
{
}

} // verus!
