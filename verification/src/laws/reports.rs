//! What a polling task makes of what it learns.

use crate::laws::pane::{all_white, law_only_white_space_is_trimmed, law_white_space_may_differ};
use crate::notify::{pane_unchanged, Notices, NotifyMode};
use crate::poll::{completed_status, final_status, PollAction, PollEvent, PollPhase, PollTask};
use crate::protocol::PipelineKey;
use crate::text::{same_trimmed, trimmed};
use vstd::prelude::*;
use vstd::string::*;

verus! {

/// Two texts count as the same if and only if they are one text in different
/// white space.
pub proof fn law_same_text_in_other_white_space(a: &str, b: &str, same: bool)
    requires
        call_ensures(same_trimmed, (a, b), same),
    ensures
        same <==> exists|
            text: Seq<char>,
            p: Seq<char>,
            q: Seq<char>,
            r: Seq<char>,
            s: Seq<char>,
        |
            all_white(p) && all_white(q) && all_white(r) && all_white(s) && a@ == #[trigger] (p
                + text + q) && b@ == #[trigger] (r + text + s),
{
    if same {
        let (p, q) = law_only_white_space_is_trimmed(a@);
        let (r, s) = law_only_white_space_is_trimmed(b@);
        let text = trimmed(a@);
        assert(a@ == p + text + q);
        assert(b@ == r + text + s);
    }
    assert forall|text: Seq<char>, p: Seq<char>, q: Seq<char>, r: Seq<char>, s: Seq<char>|
        all_white(p) && all_white(q) && all_white(r) && all_white(s) && a@ == #[trigger] (p + text
            + q) && b@ == #[trigger] (r + text + s) implies same by {
        law_white_space_may_differ(p, q, text, r, s);
        assert(pane_unchanged(a@, b@));
    }
}

/// The agent is prompted if and only if the pane shows the same text, in
/// whatever white space. The user is told always, only of a change, or never,
/// as the mode says, and is told the truth on whether the agent was prompted.
pub proof fn law_mode_and_pane_decide(
    mode: NotifyMode,
    before: &str,
    now: &str,
    same: bool,
    notices: Notices,
)
    requires
        call_ensures(same_trimmed, (before, now), same),
        call_ensures(Notices::decide, (mode, before, now), notices),
    ensures
        notices.prompt == same,
        mode == NotifyMode::Always ==> notices.desktop == Some(same),
        mode == NotifyMode::PaneContentsChanged && same ==> notices.desktop is None,
        mode == NotifyMode::PaneContentsChanged && !same ==> notices.desktop == Some(false),
        mode == NotifyMode::Never ==> notices.desktop is None,
{
}

/// Without a choice the user is always told.
pub proof fn law_default_is_to_tell(mode: NotifyMode)
    requires
        call_ensures(<NotifyMode as Default>::default, (), mode),
    ensures
        mode == NotifyMode::Always,
{
}

/// A pipeline is done if and only if its status is one of four words, and then
/// the report is that very word with each letter in upper case.
pub proof fn law_report_is_the_status_in_upper_case(status: String, label: Option<String>)
    requires
        call_ensures(completed_status, (&status,), label),
    ensures
        label is Some <==> status@ == "success"@ || status@ == "failed"@ || status@ == "canceled"@
            || status@ == "skipped"@,
        label matches Some(report) ==> {
            &&& report@.len() == status@.len()
            &&& forall|i: int|
                #![trigger report@[i]]
                0 <= i < report@.len() ==> {
                    &&& 'a' <= status@[i] <= 'z'
                    &&& report@[i] as int == status@[i] as int - 'a' as int + 'A' as int
                }
        },
{
    reveal_strlit("success");
    reveal_strlit("SUCCESS");
    reveal_strlit("failed");
    reveal_strlit("FAILED");
    reveal_strlit("canceled");
    reveal_strlit("CANCELED");
    reveal_strlit("skipped");
    reveal_strlit("SKIPPED");
}

/// Two statuses that end a pipeline have the same report only if they are the
/// same.
pub proof fn law_reports_tell_statuses_apart(
    a: String,
    b: String,
    report_a: String,
    report_b: String,
)
    requires
        call_ensures(completed_status, (&a,), Some(report_a)),
        call_ensures(completed_status, (&b,), Some(report_b)),
    ensures
        report_a@ == report_b@ <==> a@ == b@,
{
    law_report_is_the_status_in_upper_case(a, Some(report_a));
    law_report_is_the_status_in_upper_case(b, Some(report_b));
    if report_a@ == report_b@ {
        assert forall|i: int| 0 <= i < a@.len() implies #[trigger] a@[i] == b@[i] by {
            assert(report_a@[i] == report_b@[i]);
        }
        assert(a@ =~= b@);
    }
}

/// The report of polling is kept as it is; without one it is unknown, and
/// without an end of polling time ran out.
pub proof fn law_report_of_polling_is_kept(polled: Option<Option<String>>, status: String)
    requires
        call_ensures(final_status, (polled,), status),
    ensures
        polled matches Some(Some(label)) ==> status@ == label@,
        polled matches Some(None) ==> status@ == "UNKNOWN"@,
        polled is None ==> status@ == "TIMEOUT"@,
{
}

/// A new task watches the very pipeline for the very pane in the very mode, and
/// first lets the pane settle.
pub proof fn law_new_task_waits_first(
    key: PipelineKey,
    pane: String,
    mode: NotifyMode,
    task: PollTask,
    action: PollAction,
)
    requires
        call_ensures(PollTask::new, (key, pane, mode), task),
        call_ensures(PollTask::action, (&task,), action),
    ensures
        task.key.project_id@ == key.project_id@,
        task.key.merge_request_id@ == key.merge_request_id@,
        task.pane@ == pane@,
        task.mode == mode,
        task.phase is Settling,
        action matches PollAction::Sleep { secs } && secs == 15,
{
}

/// What a task does is about its own pipeline, its own pane and its own report.
pub proof fn law_action_is_about_the_task(task: PollTask, action: PollAction)
    requires
        call_ensures(PollTask::action, (&task,), action),
    ensures
        task.phase is Settling ==> (action matches PollAction::Sleep { secs } && secs == 15),
        task.phase is Pausing ==> (action matches PollAction::Sleep { secs } && secs == 30),
        task.phase is Arming ==> (action matches PollAction::StartTimeout { secs } && secs
            == 3600),
        task.phase is CapturingFirst || task.phase is CapturingLast <==> action is CapturePane,
        action matches PollAction::CapturePane { pane } ==> pane@ == task.pane@,
        task.phase is Fetching <==> action is FetchStatus,
        action matches PollAction::FetchStatus { key } ==> {
            &&& key.project_id@ == task.key.project_id@
            &&& key.merge_request_id@ == task.key.merge_request_id@
        },
        task.phase matches PollPhase::Prompting { status, .. } ==> {
            &&& action matches PollAction::SendPrompt { pane, status: s, merge_request_id }
            &&& pane@ == task.pane@
            &&& s@ == status@
            &&& merge_request_id@ == task.key.merge_request_id@
        },
        task.phase matches PollPhase::Alerting { status, agent_prompted } ==> {
            &&& action matches PollAction::SendAlert {
                pane,
                status: s,
                merge_request_id,
                agent_prompted: a,
            }
            &&& pane@ == task.pane@
            &&& s@ == status@
            &&& merge_request_id@ == task.key.merge_request_id@
            &&& a == agent_prompted
        },
        task.phase is Leaving <==> action is Deregister,
        action matches PollAction::Deregister { key } ==> {
            &&& key.project_id@ == task.key.project_id@
            &&& key.merge_request_id@ == task.key.merge_request_id@
        },
        task.phase is Done <==> action is Stop,
{
}

/// Whatever happens to a task, its pipeline, its pane and its mode stay the
/// same.
pub proof fn law_task_keeps_what_it_is_about(task: PollTask, event: PollEvent, next: PollTask)
    requires
        call_ensures(PollTask::advance, (task, event), next),
    ensures
        next.key.project_id@ == task.key.project_id@,
        next.key.merge_request_id@ == task.key.merge_request_id@,
        next.pane@ == task.pane@,
        next.mode == task.mode,
{
}

/// What the pane showed at first, as a task holds it.
pub open spec fn baseline(phase: PollPhase) -> Option<Seq<char>> {
    match phase {
        PollPhase::Arming { before } => Some(before@),
        PollPhase::Fetching { before } => Some(before@),
        PollPhase::Pausing { before } => Some(before@),
        PollPhase::CapturingLast { before, .. } => Some(before@),
        _ => None,
    }
}

/// What is to be reported, as a task holds it.
pub open spec fn report(phase: PollPhase) -> Option<Seq<char>> {
    match phase {
        PollPhase::CapturingLast { status, .. } => Some(status@),
        PollPhase::Prompting { status, .. } => Some(status@),
        PollPhase::Alerting { status, .. } => Some(status@),
        _ => None,
    }
}

/// What the pane shows at first is remembered whole, and is not forgotten or
/// changed until the last look; what is to be reported is not changed either.
pub proof fn law_task_remembers(
    phase: PollPhase,
    mode: NotifyMode,
    event: PollEvent,
    next: PollPhase,
)
    requires
        call_ensures(PollPhase::next, (phase, mode, event), next),
    ensures
        event matches PollEvent::Captured { content } ==> phase is CapturingFirst ==> next is Arming
            && baseline(next) == Some(content@),
        baseline(phase) is Some && baseline(next) is Some ==> baseline(next) == baseline(phase),
        report(phase) is Some && report(next) is Some ==> report(next) == report(phase),
        phase is Arming || phase is Fetching || phase is Pausing ==> baseline(next) is Some,
        baseline(phase) is None && baseline(next) is Some ==> phase is CapturingFirst,
{
}

/// How a task goes on before polling: it waits, looks, sets the time limit, and
/// asks; a look that fails sends it away.
pub proof fn law_task_begins_in_order(
    phase: PollPhase,
    mode: NotifyMode,
    event: PollEvent,
    next: PollPhase,
)
    requires
        call_ensures(PollPhase::next, (phase, mode, event), next),
    ensures
        phase is Settling ==> (if event is Slept {
            next is CapturingFirst
        } else {
            next is Settling
        }),
        phase is CapturingFirst ==> (if event is Captured {
            next is Arming
        } else if event is CaptureFailed {
            next is Leaving
        } else {
            next is CapturingFirst
        }),
        phase is Arming ==> (if event is TimeoutStarted {
            next is Fetching
        } else {
            next is Arming
        }),
        phase is Pausing ==> (if event is Slept {
            next is Fetching
        } else if event is TimedOut {
            next is CapturingLast
        } else {
            next is Pausing
        }),
{
}

/// What a task makes of an answer: polling ends if and only if the answer is
/// one of the four words, with that very word in upper case as its report, or
/// if time has run out. Any other answer, and none at all, means to wait and
/// ask again.
pub proof fn law_answer_decides_on_polling(
    before: String,
    mode: NotifyMode,
    event: PollEvent,
    next: PollPhase,
)
    requires
        call_ensures(PollPhase::next, (PollPhase::Fetching { before }, mode, event), next),
    ensures
        event matches PollEvent::Fetched { status: Some(status) } ==> {
            let done = status@ == "success"@ || status@ == "failed"@ || status@ == "canceled"@
                || status@ == "skipped"@;
            &&& done <==> next is CapturingLast
            &&& !done <==> next is Pausing
            &&& next matches PollPhase::CapturingLast { status: label, .. } ==> {
                &&& label@.len() == status@.len()
                &&& forall|i: int|
                    #![trigger label@[i]]
                    0 <= i < label@.len() ==> label@[i] as int == status@[i] as int - 'a' as int
                        + 'A' as int
            }
        },
        event matches PollEvent::Fetched { status: None } ==> next is Pausing,
        event is FetchFailed ==> next is Pausing,
        event is TimedOut ==> next is CapturingLast && report(next) == Some("TIMEOUT"@),
        !(event is Fetched || event is FetchFailed || event is TimedOut) ==> next is Fetching,
{
    reveal_strlit("success");
    reveal_strlit("SUCCESS");
    reveal_strlit("failed");
    reveal_strlit("FAILED");
    reveal_strlit("canceled");
    reveal_strlit("CANCELED");
    reveal_strlit("skipped");
    reveal_strlit("SKIPPED");
}

/// Running out of time while waiting is reported as such.
pub proof fn law_time_runs_out_while_waiting(before: String, mode: NotifyMode, next: PollPhase)
    requires
        call_ensures(
            PollPhase::next,
            (PollPhase::Pausing { before }, mode, PollEvent::TimedOut),
            next,
        ),
    ensures
        next matches PollPhase::CapturingLast { before: b, status } && b@ == before@ && status@
            == "TIMEOUT"@,
{
}

/// What the last look leads to: the notices that are due for what the pane
/// showed at first and shows now, the prompt first; a look that fails leads to
/// none. What is to be reported is the very report.
pub proof fn law_last_look_decides(
    before: String,
    status: String,
    mode: NotifyMode,
    event: PollEvent,
    next: PollPhase,
    first: &str,
    now: &str,
    same: bool,
)
    requires
        call_ensures(
            PollPhase::next,
            (PollPhase::CapturingLast { before, status }, mode, event),
            next,
        ),
        first@ == before@,
        event matches PollEvent::Captured { content } ==> now@ == content@,
        call_ensures(same_trimmed, (first, now), same),
    ensures
        event is Captured && same ==> {
            &&& next matches PollPhase::Prompting { status: s, desktop }
            &&& s@ == status@
            &&& desktop == (if mode == NotifyMode::Always {
                Some(true)
            } else {
                None
            })
        },
        event is Captured && !same && mode == NotifyMode::Never ==> next is Leaving,
        event is Captured && !same && mode != NotifyMode::Never ==> {
            &&& next matches PollPhase::Alerting { status: s, agent_prompted }
            &&& s@ == status@
            &&& !agent_prompted
        },
        event is CaptureFailed ==> next is Leaving,
        !(event is Captured || event is CaptureFailed) ==> next is CapturingLast && report(next)
            == Some(status@) && baseline(next) == Some(before@),
{
}

/// After the prompt comes the notification, if one is due, with the very
/// report; after that, or without it, the task leaves, and then it is over.
pub proof fn law_task_ends_in_order(
    phase: PollPhase,
    mode: NotifyMode,
    event: PollEvent,
    next: PollPhase,
)
    requires
        call_ensures(PollPhase::next, (phase, mode, event), next),
    ensures
        phase matches PollPhase::Prompting { status, desktop } ==> {
            &&& event is Prompted && desktop is None ==> next is Leaving
            &&& event is Prompted && desktop is Some ==> {
                &&& next matches PollPhase::Alerting { status: s, agent_prompted }
                &&& s@ == status@
                &&& Some(agent_prompted) == desktop
            }
            &&& !(event is Prompted) ==> {
                &&& next matches PollPhase::Prompting { status: s, desktop: d }
                &&& s@ == status@
                &&& d == desktop
            }
        },
        phase matches PollPhase::Alerting { status, agent_prompted } ==> {
            &&& event is Alerted ==> next is Leaving
            &&& !(event is Alerted) ==> {
                &&& next matches PollPhase::Alerting { status: s, agent_prompted: a }
                &&& s@ == status@
                &&& a == agent_prompted
            }
        },
        phase is Leaving ==> (if event is Deregistered {
            next is Done
        } else {
            next is Leaving
        }),
        phase is Done ==> next is Done,
{
}

/// A task goes on as its phase does, in its own mode.
pub proof fn law_task_goes_on_as_its_phase(
    task: PollTask,
    event: PollEvent,
    next: PollTask,
    phase: PollPhase,
)
    requires
        call_ensures(PollTask::advance, (task, event), next),
        call_ensures(PollPhase::next, (task.phase, task.mode, event), phase),
    ensures
        next.phase@ == phase@,
        baseline(next.phase) == baseline(phase),
        report(next.phase) == report(phase),
        next.phase is Prompting <==> phase is Prompting,
        next.phase is Alerting <==> phase is Alerting,
        next.phase is Leaving <==> phase is Leaving,
        next.phase is Done <==> phase is Done,
        next.phase is Fetching <==> phase is Fetching,
        next.phase is Pausing <==> phase is Pausing,
{
}

} // verus!
