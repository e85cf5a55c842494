//! What clients can rely on.

use crate::connection::{
    carry_out, connection_action, connection_next, ClientActionView, ClientEventView,
    ConnectionView,
};
use crate::json::response_json;
use crate::protocol::{
    cancelled_response, invalid_response, not_found_response, registered_response, CommandView,
    PipelineName,
};
use crate::registry::{enumerates, lists_all, lookup, TaskTable};
use vstd::prelude::*;

verus! {

/// How much of a conversation is ahead at most.
pub open spec fn ahead(state: ConnectionView) -> nat {
    match state {
        ConnectionView::Reading => 5,
        ConnectionView::Decoding { .. } => 4,
        ConnectionView::Replacing { .. } => 3,
        ConnectionView::Starting { .. } => 2,
        ConnectionView::Cancelling { .. } => 2,
        ConnectionView::Answering { .. } => 1,
        ConnectionView::Closed => 0,
    }
}

/// An event brings a conversation nearer to its end or changes nothing at all.
pub proof fn law_conversation_moves_on(
    state: ConnectionView,
    event: ClientEventView,
    tasks: TaskTable,
)
    ensures
        ({
            let (next, tasks_next) = connection_next(state, event, tasks);
            ||| ahead(next) < ahead(state)
            ||| next == state && tasks_next == tasks
        }),
{
}

/// A conversation after a sequence of events, each with the tasks that were
/// running when it came: other conversations may have changed them since.
pub open spec fn talk(
    state: ConnectionView,
    script: Seq<(ClientEventView, TaskTable)>,
) -> ConnectionView
    decreases script.len(),
{
    if script.len() == 0 {
        state
    } else {
        talk(connection_next(state, script.first().0, script.first().1).0, script.drop_first())
    }
}

/// The actions that were carried out in a conversation, in order.
pub open spec fn carried_out(
    state: ConnectionView,
    script: Seq<(ClientEventView, TaskTable)>,
) -> Seq<ClientActionView>
    decreases script.len(),
{
    if script.len() == 0 {
        seq![]
    } else {
        let next = connection_next(state, script.first().0, script.first().1).0;
        if next == state {
            carried_out(next, script.drop_first())
        } else {
            seq![connection_action(state)] + carried_out(next, script.drop_first())
        }
    }
}

proof fn lemma_closed_stays(script: Seq<(ClientEventView, TaskTable)>)
    ensures
        talk(ConnectionView::Closed, script) == ConnectionView::Closed,
        carried_out(ConnectionView::Closed, script) == Seq::<ClientActionView>::empty(),
    decreases script.len(),
{
    if script.len() > 0 {
        lemma_closed_stays(script.drop_first());
    }
}

/// Every request that was received is answered, once, as the last thing before
/// the conversation is over, whatever it asks for and whatever other
/// conversations do in the meantime.
pub proof fn law_every_request_is_answered_once(
    state: ConnectionView,
    script: Seq<(ClientEventView, TaskTable)>,
)
    requires
        state != ConnectionView::Reading,
        state != ConnectionView::Closed,
        talk(state, script) == ConnectionView::Closed,
    ensures
        carried_out(state, script).len() > 0,
        carried_out(state, script).last() is Send,
        forall|i: int|
            0 <= i < carried_out(state, script).len() - 1 ==> !(#[trigger] carried_out(
                state,
                script,
            )[i] is Send),
    decreases script.len(),
{
    let rest = script.drop_first();
    let next = connection_next(state, script.first().0, script.first().1).0;
    if next == ConnectionView::Closed {
        lemma_closed_stays(rest);
        assert(carried_out(state, script) =~= seq![connection_action(state)]);
    } else {
        law_every_request_is_answered_once(next, rest);
        let tail = carried_out(next, rest);
        if next == state {
            assert(carried_out(state, script) == tail);
        } else {
            let all = carried_out(state, script);
            assert(all == seq![connection_action(state)] + tail);
            assert(all.last() == tail.last());
            assert forall|i: int| 0 <= i < all.len() - 1 implies !(#[trigger] all[i] is Send) by {
                if i > 0 {
                    assert(all[i] == tail[i - 1]);
                }
            }
        }
    }
}

/// A conversation ends without an answer only if nothing was received.
pub proof fn law_silence_only_for_silence(event: ClientEventView, tasks: TaskTable)
    ensures
        connection_next(ConnectionView::Reading, event, tasks).0 == ConnectionView::Closed <==> (
        event == ClientEventView::ReadFailed || event == (ClientEventView::Received {
            bytes: seq![],
        })),
{
    if let ClientEventView::Received { bytes } = event {
        if bytes.len() == 0 {
            assert(bytes =~= seq![]);
        }
    }
}

/// A registration aborts the task that watched the pipeline, if there was one,
/// starts a new one for the pane, and enters it, so that the pipeline is now
/// watched by the new task and every other pipeline by what watched it before;
/// the client is told so, and under what name.
pub proof fn law_registration(
    text: Seq<char>,
    key: PipelineName,
    pane: Seq<char>,
    task: u64,
    tasks: TaskTable,
)
    ensures
        ({
            let request = ClientEventView::Decoded {
                command: Some(CommandView::RegisterCi { key, pane }),
            };
            let (s1, t1) = connection_next(ConnectionView::Decoding { text }, request, tasks);
            let (s2, t2) = if tasks.contains_key(key) {
                connection_next(s1, ClientEventView::Aborted, t1)
            } else {
                (s1, t1)
            };
            let (s3, t3) = connection_next(s2, ClientEventView::Started { task }, t2);
            let (s4, t4) = connection_next(s3, ClientEventView::Sent, t3);
            &&& tasks.contains_key(key) ==> connection_action(s1) == (ClientActionView::Abort {
                task: tasks[key],
            })
            &&& connection_action(s2) == (ClientActionView::Start { key, pane })
            &&& connection_action(s3) == (ClientActionView::Send {
                json: response_json(registered_response(key)),
            })
            &&& s4 == ConnectionView::Closed
            &&& t4 == tasks.insert(key, task)
        }),
{
    assert(tasks.remove(key).insert(key, task) =~= tasks.insert(key, task));
}

/// Whether every number in a table lies below a bound.
pub open spec fn all_below(tasks: TaskTable, bound: int) -> bool {
    forall|key: PipelineName| #[trigger] tasks.contains_key(key) ==> tasks[key] < bound
}

/// A registration with a number that no task has replaces the task of the
/// pipeline by another one: the old task is aborted, the pipeline is watched by
/// the new task, which is not the old one, and the client gets the same answer
/// as for a pipeline that was not watched. A number that is not below the bound
/// of the table is such a number, and the bound just above it holds afterwards.
pub proof fn law_registration_replaces(
    text: Seq<char>,
    key: PipelineName,
    pane: Seq<char>,
    task: u64,
    tasks: TaskTable,
)
    requires
        tasks.contains_key(key),
        !tasks.contains_value(task) || all_below(tasks, task as int),
    ensures
        ({
            let request = ClientEventView::Decoded {
                command: Some(CommandView::RegisterCi { key, pane }),
            };
            let (s1, t1) = connection_next(ConnectionView::Decoding { text }, request, tasks);
            let (s2, t2) = connection_next(s1, ClientEventView::Aborted, t1);
            let (s3, t3) = connection_next(s2, ClientEventView::Started { task }, t2);
            let (s4, t4) = connection_next(s3, ClientEventView::Sent, t3);
            let unwatched = connection_next(
                ConnectionView::Decoding { text },
                request,
                tasks.remove(key),
            ).0;
            &&& connection_action(s1) == (ClientActionView::Abort { task: tasks[key] })
            &&& !t1.contains_key(key)
            &&& s2 == unwatched
            &&& connection_action(s3) == (ClientActionView::Send {
                json: response_json(registered_response(key)),
            })
            &&& t4.contains_key(key)
            &&& t4[key] == task
            &&& t4[key] != tasks[key]
            &&& all_below(tasks, task as int) ==> all_below(t4, task + 1)
        }),
{
    assert(tasks.contains_value(tasks[key]));
}

/// What holds of the numbers while conversations run side by side. `pending`
/// are the numbers that were issued for tasks not yet entered: they and the
/// numbers in the table lie below the bound of the issuer, none is both, and no
/// two pipelines share one.
pub open spec fn numbers_sound(tasks: TaskTable, pending: Set<u64>, bound: int) -> bool {
    &&& all_below(tasks, bound)
    &&& forall|n: u64| #[trigger] pending.contains(n) ==> n < bound
    &&& forall|key: PipelineName| #[trigger]
        tasks.contains_key(key) ==> !pending.contains(tasks[key])
    &&& forall|a: PipelineName, b: PipelineName|
        #![trigger tasks.contains_key(a), tasks.contains_key(b)]
        tasks.contains_key(a) && tasks.contains_key(b) && tasks[a] == tasks[b] ==> a == b
}

/// Issuing a number keeps the numbers sound, and the number is one that no task
/// has.
pub proof fn law_issued_number_is_new(tasks: TaskTable, pending: Set<u64>, bound: u64)
    requires
        numbers_sound(tasks, pending, bound as int),
    ensures
        !tasks.contains_value(bound),
        !pending.contains(bound),
        numbers_sound(tasks, pending.insert(bound), bound + 1),
{
}

/// Every step of every conversation keeps the numbers sound, as does a task
/// that leaves the registry. So no number is entered twice, and what is aborted
/// by its number is the one task that was meant.
pub proof fn law_no_number_is_used_twice(
    state: ConnectionView,
    event: ClientEventView,
    tasks: TaskTable,
    pending: Set<u64>,
    bound: int,
    key: PipelineName,
)
    requires
        numbers_sound(tasks, pending, bound),
        event matches ClientEventView::Started { task } ==> pending.contains(task),
    ensures
        ({
            let (next, tasks_next) = connection_next(state, event, tasks);
            let left = match event {
                ClientEventView::Started { task } => pending.remove(task),
                _ => pending,
            };
            numbers_sound(tasks_next, left, bound)
        }),
        numbers_sound(tasks.remove(key), pending, bound),
{
}

/// A cancellation takes back a registration: it aborts the task that the
/// registration started and leaves the pipeline unwatched, and nothing else
/// changes. A second cancellation finds nothing, says so, and changes nothing.
pub proof fn law_cancellation_takes_back_registration(
    text: Seq<char>,
    key: PipelineName,
    task: u64,
    tasks: TaskTable,
)
    ensures
        ({
            let request = ClientEventView::Decoded {
                command: Some(CommandView::CancelCi { key }),
            };
            let registered = tasks.insert(key, task);
            let decoding = ConnectionView::Decoding { text };
            let (s1, t1) = connection_next(decoding, request, registered);
            let (s2, t2) = connection_next(s1, ClientEventView::Aborted, t1);
            let (again, t3) = connection_next(decoding, request, t2);
            &&& connection_action(s1) == (ClientActionView::Abort { task })
            &&& connection_action(s2) == (ClientActionView::Send {
                json: response_json(cancelled_response()),
            })
            &&& t2 == tasks.remove(key)
            &&& !tasks.contains_key(key) ==> t2 == tasks
            &&& connection_action(again) == (ClientActionView::Send {
                json: response_json(not_found_response(key)),
            })
            &&& t3 == t2
        }),
{
    assert(tasks.insert(key, task).remove(key) =~= tasks.remove(key));
    if !tasks.contains_key(key) {
        assert(tasks.remove(key) =~= tasks);
    }
}

/// A request that cannot be decoded is answered with an error and changes
/// nothing.
pub proof fn law_invalid_request_changes_nothing(text: Seq<char>, tasks: TaskTable)
    ensures
        ({
            let (next, tasks_next) = connection_next(
                ConnectionView::Decoding { text },
                ClientEventView::Decoded { command: None },
                tasks,
            );
            &&& connection_action(next) == (ClientActionView::Send {
                json: response_json(invalid_response()),
            })
            &&& tasks_next == tasks
        }),
{
}

/// Whether an event in a conversation concerns a pipeline.
pub open spec fn concerns(
    state: ConnectionView,
    event: ClientEventView,
    key: PipelineName,
) -> bool {
    match (state, event) {
        (
            ConnectionView::Decoding { .. },
            ClientEventView::Decoded { command: Some(CommandView::RegisterCi { key: k, .. }) },
        ) => k == key,
        (
            ConnectionView::Decoding { .. },
            ClientEventView::Decoded { command: Some(CommandView::CancelCi { key: k }) },
        ) => k == key,
        (ConnectionView::Starting { key: k, .. }, ClientEventView::Started { .. }) => k == key,
        _ => false,
    }
}

/// A conversation leaves alone the tasks of every pipeline that it is not
/// about.
pub proof fn law_other_pipelines_untouched(
    state: ConnectionView,
    event: ClientEventView,
    tasks: TaskTable,
    key: PipelineName,
)
    requires
        !concerns(state, event, key),
    ensures
        lookup(connection_next(state, event, tasks).1, key) == lookup(tasks, key),
{
}

/// A task that a request takes out of the registry is the next thing to be
/// aborted.
pub proof fn law_removed_means_aborted(
    command: Option<CommandView>,
    tasks: TaskTable,
    key: PipelineName,
)
    requires
        tasks.contains_key(key),
        !carry_out(command, tasks).1.contains_key(key),
    ensures
        connection_action(carry_out(command, tasks).0) == (ClientActionView::Abort {
            task: tasks[key],
        }),
{
}

/// Once a task has left the registry its pipeline is free: a cancellation
/// finds nothing, and a registration has nothing to abort.
pub proof fn law_finished_pipeline_is_free(key: PipelineName, pane: Seq<char>, tasks: TaskTable)
    ensures
        carry_out(Some(CommandView::CancelCi { key }), tasks.remove(key)) == (
            ConnectionView::Answering { json: response_json(not_found_response(key)) },
            tasks.remove(key),
        ),
        carry_out(Some(CommandView::RegisterCi { key, pane }), tasks.remove(key)) == (
            ConnectionView::Starting { key, pane },
            tasks.remove(key),
        ),
{
}

/// When all tasks are taken out of the registry, none is missed and none is
/// made up.
pub proof fn law_all_tasks_are_taken_out(listed: Seq<u64>, tasks: TaskTable)
    requires
        lists_all(listed, tasks),
    ensures
        forall|key: PipelineName| #[trigger]
            tasks.contains_key(key) ==> listed.contains(tasks[key]),
        forall|task: u64| #[trigger] listed.contains(task) ==> tasks.contains_value(task),
        listed.len() == tasks.dom().len(),
{
    let names = choose|names: Seq<PipelineName>| #[trigger] enumerates(names, listed, tasks);
    names.unique_seq_to_set();
    assert forall|key: PipelineName| #[trigger] tasks.contains_key(key) implies listed.contains(
        tasks[key],
    ) by {
        assert(names.to_set().contains(key));
        let i = choose|i: int| 0 <= i < names.len() && names[i] == key;
        assert(listed[i] == tasks[key]);
    }
    assert forall|task: u64| #[trigger] listed.contains(task) implies tasks.contains_value(
        task,
    ) by {
        let i = choose|i: int| 0 <= i < listed.len() && listed[i] == task;
        assert(names.to_set().contains(names[i]));
        assert(tasks.contains_key(names[i]) && tasks[names[i]] == task);
    }
}

} // verus!
