//! What a polling task does over its whole life.

use crate::notify::{notices_for, pane_unchanged, Notices, NotifyMode};
use crate::poll::{
    completed_as, poll_action, poll_next, PhaseView, PollActionView, PollEventView, TaskView,
    POLLING_INTERVAL_SECS, POLLING_TIMEOUT_SECS, SETTLE_SECS,
};
use crate::protocol::PipelineName;
use crate::registry::{lookup, TaskTable};
use vstd::prelude::*;

verus! {

/// A task after one event.
pub open spec fn step(task: TaskView, event: PollEventView) -> TaskView {
    TaskView { phase: poll_next(task.phase, task.mode, event), ..task }
}

/// A task after a sequence of events.
pub open spec fn run(task: TaskView, events: Seq<PollEventView>) -> TaskView
    decreases events.len(),
{
    if events.len() == 0 {
        task
    } else {
        run(step(task, events.first()), events.drop_first())
    }
}

/// The phases of a task that a sequence of events has moved it out of, in
/// order: those whose actions were carried out.
pub open spec fn left_behind(task: TaskView, events: Seq<PollEventView>) -> Seq<PhaseView>
    decreases events.len(),
{
    if events.len() == 0 {
        seq![]
    } else {
        let next = step(task, events.first());
        if next.phase == task.phase {
            left_behind(next, events.drop_first())
        } else {
            seq![task.phase] + left_behind(next, events.drop_first())
        }
    }
}

/// The actions that were carried out for a task, in order.
pub open spec fn performed(task: TaskView, events: Seq<PollEventView>) -> Seq<PollActionView> {
    left_behind(task, events).map_values(
        |phase: PhaseView| poll_action(TaskView { phase, ..task }),
    )
}

/// A task as it starts.
pub open spec fn fresh(key: PipelineName, pane: Seq<char>, mode: NotifyMode) -> TaskView {
    TaskView { key, pane, mode, phase: PhaseView::Settling }
}

/// The place of a phase in the life of a task.
pub open spec fn stage(phase: PhaseView) -> int {
    match phase {
        PhaseView::Settling => 0,
        PhaseView::CapturingFirst => 1,
        PhaseView::Arming { .. } => 2,
        PhaseView::Fetching { .. } => 3,
        PhaseView::Pausing { .. } => 3,
        PhaseView::CapturingLast { .. } => 4,
        PhaseView::Prompting { .. } => 5,
        PhaseView::Alerting { .. } => 6,
        PhaseView::Leaving => 7,
        PhaseView::Done => 8,
    }
}

/// A task never goes back: each event leaves it where it is or takes it
/// further, except that asking for the status and waiting to ask again
/// alternate.
pub proof fn law_stages_only_rise(phase: PhaseView, mode: NotifyMode, event: PollEventView)
    ensures
        ({
            let next = poll_next(phase, mode, event);
            ||| next == phase
            ||| stage(phase) < stage(next)
            ||| stage(phase) == stage(next) == 3
        }),
{
}

/// Phases belong to ever later stages, from the first one on; only polling
/// occurs more than once.
pub open spec fn in_order(phases: Seq<PhaseView>) -> bool {
    forall|i: int, j: int|
        #![trigger phases[i], phases[j]]
        0 <= i < j < phases.len() ==> stage(phases[i]) < stage(phases[j]) || stage(phases[i])
            == stage(phases[j]) == 3
}

/// The actions of a task are carried out in the order of the stages they
/// belong to, and only polling happens more than once. So a task looks at its
/// pane at most twice, prompts at most once, notifies at most once and after
/// that, and leaves the registry at most once and last of all.
pub proof fn law_each_stage_once(task: TaskView, events: Seq<PollEventView>)
    ensures
        in_order(left_behind(task, events)),
        forall|phase: PhaseView| #[trigger]
            left_behind(task, events).contains(phase) ==> stage(task.phase) <= stage(phase)
                <= stage(run(task, events).phase),
        stage(task.phase) <= stage(run(task, events).phase),
    decreases events.len(),
{
    let all = left_behind(task, events);
    if events.len() > 0 {
        let next = step(task, events.first());
        let rest = events.drop_first();
        law_stages_only_rise(task.phase, task.mode, events.first());
        law_each_stage_once(next, rest);
        let tail = left_behind(next, rest);
        if next.phase == task.phase {
            assert(all == tail);
        } else {
            assert(all == seq![task.phase] + tail);
            assert forall|i: int, j: int|
                #![trigger all[i], all[j]]
                0 <= i < j < all.len() implies stage(all[i]) < stage(all[j]) || stage(all[i])
                == stage(all[j]) == 3 by {
                assert(all[j] == tail[j - 1]);
                assert(tail.contains(tail[j - 1]));
                if i > 0 {
                    assert(all[i] == tail[i - 1]);
                }
            }
            assert forall|phase: PhaseView| #[trigger] all.contains(phase) implies stage(
                task.phase,
            ) <= stage(phase) <= stage(run(task, events).phase) by {
                let i = choose|i: int| 0 <= i < all.len() && all[i] == phase;
                if i > 0 {
                    assert(all[i] == tail[i - 1]);
                    assert(tail.contains(tail[i - 1]));
                }
            }
        }
    }
}

/// A task that is over has left the registry, as the last thing it did.
pub proof fn law_done_means_deregistered(
    key: PipelineName,
    pane: Seq<char>,
    mode: NotifyMode,
    events: Seq<PollEventView>,
)
    requires
        run(fresh(key, pane, mode), events).phase == PhaseView::Done,
    ensures
        performed(fresh(key, pane, mode), events).len() > 0,
        performed(fresh(key, pane, mode), events).last() == (PollActionView::Deregister { key }),
        forall|i: int|
            0 <= i < performed(fresh(key, pane, mode), events).len() - 1
                ==> !(#[trigger] performed(fresh(key, pane, mode), events)[i] is Deregister),
{
    let task = fresh(key, pane, mode);
    lemma_done_through_leaving(task, events);
    law_each_stage_once(task, events);
    let phases = left_behind(task, events);
    assert forall|i: int| 0 <= i < phases.len() - 1 implies !(#[trigger] performed(
        task,
        events,
    )[i] is Deregister) by {
        assert(stage(phases[i]) < stage(phases[phases.len() - 1]) || stage(phases[i]) == 3);
    }
}

proof fn lemma_done_through_leaving(task: TaskView, events: Seq<PollEventView>)
    requires
        task.phase != PhaseView::Done,
        run(task, events).phase == PhaseView::Done,
    ensures
        left_behind(task, events).len() > 0,
        left_behind(task, events).last() == PhaseView::Leaving,
    decreases events.len(),
{
    let next = step(task, events.first());
    let rest = events.drop_first();
    if next.phase == PhaseView::Done {
        lemma_done_stays(next, rest);
        assert(left_behind(task, events) =~= seq![PhaseView::Leaving]);
    } else {
        lemma_done_through_leaving(next, rest);
        if next.phase != task.phase {
            assert(left_behind(task, events).last() == left_behind(next, rest).last());
        }
    }
}

proof fn lemma_done_stays(task: TaskView, events: Seq<PollEventView>)
    requires
        task.phase == PhaseView::Done,
    ensures
        left_behind(task, events) == Seq::<PhaseView>::empty(),
        run(task, events) == task,
    decreases events.len(),
{
    if events.len() > 0 {
        assert(step(task, events.first()) == task);
        lemma_done_stays(task, events.drop_first());
    }
}

/// What the actions of a task make of the table of tasks: the key that is
/// deregistered is taken out, and nothing else touches the table.
pub open spec fn table_after(tasks: TaskTable, actions: Seq<PollActionView>) -> TaskTable
    decreases actions.len(),
{
    if actions.len() == 0 {
        tasks
    } else {
        let before = table_after(tasks, actions.drop_last());
        match actions.last() {
            PollActionView::Deregister { key } => before.remove(key),
            _ => before,
        }
    }
}

proof fn lemma_table_untouched(tasks: TaskTable, actions: Seq<PollActionView>)
    requires
        forall|i: int| 0 <= i < actions.len() ==> !(#[trigger] actions[i] is Deregister),
    ensures
        table_after(tasks, actions) == tasks,
    decreases actions.len(),
{
    if actions.len() > 0 {
        let rest = actions.drop_last();
        assert forall|i: int| 0 <= i < rest.len() implies !(#[trigger] rest[i] is Deregister) by {
            assert(rest[i] == actions[i]);
        }
        assert(actions.last() == actions[actions.len() - 1]);
        lemma_table_untouched(tasks, rest);
    }
}

proof fn lemma_not_left_before_done(task: TaskView, events: Seq<PollEventView>)
    requires
        run(task, events).phase != PhaseView::Done,
    ensures
        forall|i: int|
            0 <= i < left_behind(task, events).len() ==> #[trigger] left_behind(task, events)[i]
                != PhaseView::Leaving,
    decreases events.len(),
{
    if events.len() > 0 {
        let next = step(task, events.first());
        let rest = events.drop_first();
        if next.phase == PhaseView::Done {
            lemma_done_stays(next, rest);
        }
        lemma_not_left_before_done(next, rest);
        let all = left_behind(task, events);
        let tail = left_behind(next, rest);
        if next.phase != task.phase {
            assert forall|i: int| 0 <= i < all.len() implies #[trigger] all[i]
                != PhaseView::Leaving by {
                if i > 0 {
                    assert(all[i] == tail[i - 1]);
                }
            }
        }
    }
}

/// Whatever way a task ends, its pipeline is then out of the table and every
/// other pipeline is watched as before; as long as it has not ended, it leaves
/// the table alone.
pub proof fn law_ended_task_is_out_of_the_table(
    key: PipelineName,
    pane: Seq<char>,
    mode: NotifyMode,
    events: Seq<PollEventView>,
    tasks: TaskTable,
)
    ensures
        ({
            let task = fresh(key, pane, mode);
            let after = table_after(tasks, performed(task, events));
            if run(task, events).phase == PhaseView::Done {
                &&& after == tasks.remove(key)
                &&& lookup(after, key) is None
                &&& forall|other: PipelineName|
                    other != key ==> #[trigger] lookup(after, other) == lookup(tasks, other)
            } else {
                after == tasks
            }
        }),
{
    let task = fresh(key, pane, mode);
    let actions = performed(task, events);
    if run(task, events).phase == PhaseView::Done {
        law_done_means_deregistered(key, pane, mode, events);
        let rest = actions.drop_last();
        assert forall|i: int| 0 <= i < rest.len() implies !(#[trigger] rest[i] is Deregister) by {
            assert(rest[i] == actions[i]);
        }
        lemma_table_untouched(tasks, rest);
    } else {
        lemma_not_left_before_done(task, events);
        let phases = left_behind(task, events);
        assert forall|i: int| 0 <= i < actions.len() implies !(
        #[trigger] actions[i] is Deregister) by {
            assert(phases[i] != PhaseView::Leaving);
        }
        lemma_table_untouched(tasks, actions);
    }
}

/// What can be reported of a pipeline.
pub open spec fn is_report(status: Seq<char>) -> bool {
    ||| status == "SUCCESS"@
    ||| status == "FAILED"@
    ||| status == "CANCELED"@
    ||| status == "SKIPPED"@
    ||| status == "TIMEOUT"@
}

/// What holds of a task at every moment: what it reports is one of five
/// words, and it is about to send no more than its mode allows.
pub open spec fn consistent(task: TaskView) -> bool {
    match task.phase {
        PhaseView::CapturingLast { status, .. } => is_report(status),
        PhaseView::Prompting { status, desktop } => is_report(status) && desktop == notices_for(
            task.mode,
            true,
        ).desktop,
        PhaseView::Alerting { status, agent_prompted } => is_report(status) && notices_for(
            task.mode,
            agent_prompted,
        ).desktop == Some(agent_prompted),
        _ => true,
    }
}

/// Whatever happens to a task, it stays consistent.
pub proof fn law_always_consistent(task: TaskView, events: Seq<PollEventView>)
    requires
        consistent(task),
    ensures
        consistent(run(task, events)),
    decreases events.len(),
{
    if events.len() > 0 {
        let next = step(task, events.first());
        assert(consistent(next));
        law_always_consistent(next, events.drop_first());
    }
}

/// What a new task says, in the pane or on the desktop, names one of five
/// outcomes, whatever GitLab answers. It never notifies on the desktop in the
/// mode that forbids it, and in the mode for changed panes it notifies only of
/// changed panes.
pub proof fn law_modes_respected(
    key: PipelineName,
    pane: Seq<char>,
    mode: NotifyMode,
    events: Seq<PollEventView>,
)
    ensures
        match poll_action(run(fresh(key, pane, mode), events)) {
            PollActionView::SendPrompt { status, .. } => is_report(status),
            PollActionView::SendAlert { status, agent_prompted, .. } => {
                &&& is_report(status)
                &&& mode != NotifyMode::Never
                &&& mode == NotifyMode::PaneContentsChanged ==> !agent_prompted
            },
            _ => true,
        },
{
    law_always_consistent(fresh(key, pane, mode), events);
    lemma_run_keeps(fresh(key, pane, mode), events);
}

proof fn lemma_run_keeps(task: TaskView, events: Seq<PollEventView>)
    ensures
        run(task, events).key == task.key,
        run(task, events).pane == task.pane,
        run(task, events).mode == task.mode,
    decreases events.len(),
{
    if events.len() > 0 {
        lemma_run_keeps(step(task, events.first()), events.drop_first());
    }
}

/// Events that come one after the other do what they do in turn.
proof fn lemma_run_concat(task: TaskView, a: Seq<PollEventView>, b: Seq<PollEventView>)
    ensures
        run(task, a + b) == run(run(task, a), b),
        left_behind(task, a + b) == left_behind(task, a) + left_behind(run(task, a), b),
    decreases a.len(),
{
    if a.len() == 0 {
        assert(a + b =~= b);
        assert(left_behind(task, a) + left_behind(task, b) =~= left_behind(task, b));
    } else {
        let next = step(task, a.first());
        lemma_run_concat(next, a.drop_first(), b);
        assert((a + b).drop_first() =~= a.drop_first() + b);
        assert((a + b).first() == a.first());
        assert(left_behind(task, a + b) =~= left_behind(task, a) + left_behind(run(task, a), b));
    }
}

/// One event does what it does.
proof fn lemma_run_one(task: TaskView, event: PollEventView)
    ensures
        run(task, seq![event]) == step(task, event),
        step(task, event).phase != task.phase ==> left_behind(task, seq![event]) == seq![
            task.phase,
        ],
{
    let events = seq![event];
    assert(events.drop_first() =~= seq![]);
    assert(run(step(task, event), events.drop_first()) == step(task, event));
    assert(left_behind(step(task, event), events.drop_first()) =~= seq![]);
    if step(task, event).phase != task.phase {
        assert(left_behind(task, events) =~= seq![task.phase]);
    }
}

/// An answer from which it does not follow that the pipeline is done: a status
/// that ends nothing, no pipeline yet, or no answer at all.
pub open spec fn inconclusive(outcome: PollEventView) -> bool {
    match outcome {
        PollEventView::Fetched { status: Some(status) } => completed_as(status) is None,
        PollEventView::Fetched { status: None } => true,
        PollEventView::FetchFailed => true,
        _ => false,
    }
}

/// The answers, each followed by the time until the next question.
pub open spec fn rounds(outcomes: Seq<PollEventView>) -> Seq<PollEventView>
    decreases outcomes.len(),
{
    if outcomes.len() == 0 {
        seq![]
    } else {
        seq![outcomes.first()] + (seq![PollEventView::Slept] + rounds(outcomes.drop_first()))
    }
}

/// The phases of so many rounds of polling.
pub open spec fn round_phases(before: Seq<char>, n: nat) -> Seq<PhaseView>
    decreases n,
{
    if n == 0 {
        seq![]
    } else {
        seq![PhaseView::Fetching { before }] + (seq![PhaseView::Pausing { before }] + round_phases(
            before,
            (n - 1) as nat,
        ))
    }
}

/// The actions of so many rounds of polling: ask, wait.
pub open spec fn round_actions(key: PipelineName, n: nat) -> Seq<PollActionView>
    decreases n,
{
    if n == 0 {
        seq![]
    } else {
        seq![
            PollActionView::FetchStatus { key },
            PollActionView::Sleep { secs: POLLING_INTERVAL_SECS },
        ] + round_actions(key, (n - 1) as nat)
    }
}

proof fn lemma_round_actions(task: TaskView, before: Seq<char>, n: nat)
    ensures
        round_phases(before, n).map_values(
            |phase: PhaseView| poll_action(TaskView { phase, ..task }),
        ) == round_actions(task.key, n),
    decreases n,
{
    let f = |phase: PhaseView| poll_action(TaskView { phase, ..task });
    if n > 0 {
        let rest = round_phases(before, (n - 1) as nat);
        lemma_round_actions(task, before, (n - 1) as nat);
        assert(round_phases(before, n).map_values(f) =~= seq![
            PollActionView::FetchStatus { key: task.key },
            PollActionView::Sleep { secs: POLLING_INTERVAL_SECS },
        ] + rest.map_values(f));
    } else {
        assert(round_phases(before, n).map_values(f) =~= round_actions(task.key, n));
    }
}

proof fn lemma_rounds(task: TaskView, before: Seq<char>, outcomes: Seq<PollEventView>)
    requires
        task.phase == (PhaseView::Fetching { before }),
        forall|i: int| 0 <= i < outcomes.len() ==> inconclusive(#[trigger] outcomes[i]),
    ensures
        run(task, rounds(outcomes)) == task,
        left_behind(task, rounds(outcomes)) == round_phases(before, outcomes.len()),
    decreases outcomes.len(),
{
    if outcomes.len() > 0 {
        let rest = outcomes.drop_first();
        let first = seq![outcomes.first()];
        let slept = seq![PollEventView::Slept];
        assert(inconclusive(outcomes[0]));
        let pausing = step(task, outcomes.first());
        assert(pausing.phase == (PhaseView::Pausing { before }));
        let again = step(pausing, PollEventView::Slept);
        assert(again == task);
        assert forall|i: int| 0 <= i < rest.len() implies inconclusive(#[trigger] rest[i]) by {
            assert(rest[i] == outcomes[i + 1]);
        }
        lemma_rounds(task, before, rest);
        lemma_run_one(task, outcomes.first());
        lemma_run_one(pausing, PollEventView::Slept);
        lemma_run_concat(pausing, slept, rounds(rest));
        lemma_run_concat(task, first, slept + rounds(rest));
    }
}

/// As long as the answers are inconclusive, however many they are, a task goes
/// on asking, with the set time between two questions, and does nothing else.
pub proof fn law_polling_goes_on(
    task: TaskView,
    before: Seq<char>,
    outcomes: Seq<PollEventView>,
)
    requires
        task.phase == (PhaseView::Fetching { before }),
        forall|i: int| 0 <= i < outcomes.len() ==> inconclusive(#[trigger] outcomes[i]),
    ensures
        run(task, rounds(outcomes)) == task,
        performed(task, rounds(outcomes)) == round_actions(task.key, outcomes.len()),
{
    lemma_rounds(task, before, outcomes);
    lemma_round_actions(task, before, outcomes.len());
}

/// How polling can end, and what is then reported: by a status that ends the
/// pipeline, or by running out of time, in the middle of a question or before
/// the next.
pub open spec fn conclusion(ending: Seq<PollEventView>) -> Option<Seq<char>> {
    if ending.len() == 1 {
        match ending[0] {
            PollEventView::Fetched { status: Some(status) } => completed_as(status),
            PollEventView::TimedOut => Some("TIMEOUT"@),
            _ => None,
        }
    } else if ending.len() == 2 && inconclusive(ending[0]) && ending[1]
        == PollEventView::TimedOut {
        Some("TIMEOUT"@)
    } else {
        None
    }
}

proof fn lemma_ending(task: TaskView, before: Seq<char>, ending: Seq<PollEventView>)
    requires
        task.phase == (PhaseView::Fetching { before }),
        conclusion(ending) is Some,
    ensures
        run(task, ending) == (TaskView {
            phase: PhaseView::CapturingLast { before, status: conclusion(ending)->0 },
            ..task
        }),
        left_behind(task, ending) == (if ending.len() == 1 {
            seq![PhaseView::Fetching { before }]
        } else {
            seq![PhaseView::Fetching { before }, PhaseView::Pausing { before }]
        }),
{
    lemma_run_one(task, ending[0]);
    if ending.len() == 1 {
        assert(ending =~= seq![ending[0]]);
    } else {
        let pausing = step(task, ending[0]);
        lemma_run_one(pausing, ending[1]);
        lemma_run_concat(task, seq![ending[0]], seq![ending[1]]);
        assert(ending =~= seq![ending[0]] + seq![ending[1]]);
        assert(left_behind(task, ending) =~= seq![
            PhaseView::Fetching { before },
            PhaseView::Pausing { before },
        ]);
    }
}

/// What is sent: the prompt if there is one, then the notification if there is
/// one.
pub open spec fn sent(
    key: PipelineName,
    pane: Seq<char>,
    status: Seq<char>,
    notices: Notices,
) -> Seq<PollActionView> {
    (if notices.prompt {
        seq![PollActionView::SendPrompt { pane, status, merge_request_id: key.1 }]
    } else {
        seq![]
    }) + (match notices.desktop {
        Some(agent_prompted) => seq![
            PollActionView::SendAlert { pane, status, merge_request_id: key.1, agent_prompted },
        ],
        None => seq![],
    })
}

/// What comes of sending.
pub open spec fn sent_events(notices: Notices) -> Seq<PollEventView> {
    (if notices.prompt {
        seq![PollEventView::Prompted]
    } else {
        seq![]
    }) + (if notices.desktop is Some {
        seq![PollEventView::Alerted]
    } else {
        seq![]
    })
}

/// The actions of events that come one after the other.
proof fn lemma_performed_concat(task: TaskView, a: Seq<PollEventView>, b: Seq<PollEventView>)
    ensures
        run(task, a + b) == run(run(task, a), b),
        performed(task, a + b) == performed(task, a) + performed(run(task, a), b),
{
    lemma_run_concat(task, a, b);
    lemma_run_keeps(task, a);
    assert(performed(task, a + b) =~= performed(task, a) + performed(run(task, a), b));
}

/// The action of one event.
proof fn lemma_performed_one(task: TaskView, event: PollEventView)
    ensures
        run(task, seq![event]) == step(task, event),
        step(task, event).phase != task.phase ==> performed(task, seq![event]) == seq![
            poll_action(task),
        ],
{
    lemma_run_one(task, event);
    if step(task, event).phase != task.phase {
        assert(performed(task, seq![event]) =~= seq![poll_action(task)]);
    }
}

/// Nothing is done where nothing happens.
proof fn lemma_performed_none(task: TaskView)
    ensures
        run(task, seq![]) == task,
        performed(task, seq![]) == Seq::<PollActionView>::empty(),
{
    assert(performed(task, seq![]) =~= Seq::<PollActionView>::empty());
}

/// Once a task knows what to report and what the pane shows, it sends what the
/// mode asks for and leaves the registry: the prompt goes to an unchanged pane
/// and to no other, and no failure to send keeps the task from leaving.
pub proof fn law_report(
    task: TaskView,
    before: Seq<char>,
    status: Seq<char>,
    now: Seq<char>,
)
    requires
        task.phase == (PhaseView::CapturingLast { before, status }),
    ensures
        ({
            let notices = notices_for(task.mode, pane_unchanged(before, now));
            let events = seq![PollEventView::Captured { content: now }] + sent_events(notices)
                + seq![PollEventView::Deregistered];
            &&& run(task, events).phase == PhaseView::Done
            &&& performed(task, events) == seq![PollActionView::CapturePane { pane: task.pane }]
                + sent(task.key, task.pane, status, notices) + seq![
                PollActionView::Deregister { key: task.key },
            ]
        }),
{
    let notices = notices_for(task.mode, pane_unchanged(before, now));
    let captured = PollEventView::Captured { content: now };
    let decided = step(task, captured);
    lemma_performed_one(task, captured);
    let prompts = if notices.prompt {
        seq![PollEventView::Prompted]
    } else {
        seq![]
    };
    let alerts = if notices.desktop is Some {
        seq![PollEventView::Alerted]
    } else {
        seq![]
    };
    let prompted = run(decided, prompts);
    if notices.prompt {
        lemma_performed_one(decided, PollEventView::Prompted);
    } else {
        lemma_performed_none(decided);
    }
    let leaving = run(prompted, alerts);
    if notices.desktop is Some {
        lemma_performed_one(prompted, PollEventView::Alerted);
    } else {
        lemma_performed_none(prompted);
    }
    assert(leaving.phase == PhaseView::Leaving);
    lemma_performed_concat(decided, prompts, alerts);
    lemma_performed_concat(task, seq![captured], sent_events(notices));
    lemma_performed_one(leaving, PollEventView::Deregistered);
    lemma_performed_concat(
        task,
        seq![captured] + sent_events(notices),
        seq![PollEventView::Deregistered],
    );
    let events = seq![captured] + sent_events(notices) + seq![PollEventView::Deregistered];
    assert(performed(task, events) =~= seq![PollActionView::CapturePane { pane: task.pane }]
        + sent(task.key, task.pane, status, notices) + seq![
        PollActionView::Deregister { key: task.key },
    ]);
}

/// How a task begins: it waits for the pane to settle, looks at it, and has
/// the clock set.
pub open spec fn opening(before: Seq<char>) -> Seq<PollEventView> {
    seq![PollEventView::Slept] + seq![PollEventView::Captured { content: before }] + seq![
        PollEventView::TimeoutStarted,
    ]
}

/// The actions of the beginning.
pub open spec fn opening_actions(pane: Seq<char>) -> Seq<PollActionView> {
    seq![
        PollActionView::Sleep { secs: SETTLE_SECS },
        PollActionView::CapturePane { pane },
        PollActionView::StartTimeout { secs: POLLING_TIMEOUT_SECS },
    ]
}

proof fn lemma_opening(task: TaskView, before: Seq<char>)
    requires
        task.phase == PhaseView::Settling,
    ensures
        run(task, opening(before)) == (TaskView {
            phase: PhaseView::Fetching { before },
            ..task
        }),
        performed(task, opening(before)) == opening_actions(task.pane),
{
    let slept = PollEventView::Slept;
    let captured = PollEventView::Captured { content: before };
    let armed = PollEventView::TimeoutStarted;
    let one = step(task, slept);
    let two = step(one, captured);
    lemma_performed_one(task, slept);
    lemma_performed_one(one, captured);
    lemma_performed_one(two, armed);
    lemma_performed_concat(task, seq![slept], seq![captured]);
    lemma_performed_concat(task, seq![slept] + seq![captured], seq![armed]);
    assert(performed(task, opening(before)) =~= opening_actions(task.pane));
}

/// The actions that end polling: the last question, and the wait after it if
/// time runs out during that wait.
pub open spec fn ending_actions(key: PipelineName, waits: bool) -> Seq<PollActionView> {
    if waits {
        seq![
            PollActionView::FetchStatus { key },
            PollActionView::Sleep { secs: POLLING_INTERVAL_SECS },
        ]
    } else {
        seq![PollActionView::FetchStatus { key }]
    }
}

/// The whole life of a task: it waits, looks at the pane, asks until it gets a
/// conclusive answer or time runs out, looks at the pane again, sends what its
/// mode asks for, leaves the registry, and is over. It does nothing else, and
/// nothing in another order.
pub proof fn law_whole_life(
    key: PipelineName,
    pane: Seq<char>,
    mode: NotifyMode,
    before: Seq<char>,
    outcomes: Seq<PollEventView>,
    ending: Seq<PollEventView>,
    now: Seq<char>,
)
    requires
        forall|i: int| 0 <= i < outcomes.len() ==> inconclusive(#[trigger] outcomes[i]),
        conclusion(ending) is Some,
    ensures
        ({
            let notices = notices_for(mode, pane_unchanged(before, now));
            let events = opening(before) + rounds(outcomes) + ending + (seq![
                PollEventView::Captured { content: now },
            ] + sent_events(notices) + seq![PollEventView::Deregistered]);
            &&& run(fresh(key, pane, mode), events).phase == PhaseView::Done
            &&& performed(fresh(key, pane, mode), events) == opening_actions(pane)
                + round_actions(key, outcomes.len()) + ending_actions(key, ending.len() == 2) + (
            seq![PollActionView::CapturePane { pane }] + sent(
                key,
                pane,
                conclusion(ending)->0,
                notices,
            ) + seq![PollActionView::Deregister { key }])
        }),
{
    let notices = notices_for(mode, pane_unchanged(before, now));
    let task = fresh(key, pane, mode);
    let polling = TaskView { phase: PhaseView::Fetching { before }, ..task };
    let report = conclusion(ending)->0;
    let reporting = TaskView {
        phase: PhaseView::CapturingLast { before, status: report },
        ..task
    };
    let closing = seq![PollEventView::Captured { content: now }] + sent_events(notices) + seq![
        PollEventView::Deregistered,
    ];
    lemma_opening(task, before);
    law_polling_goes_on(polling, before, outcomes);
    lemma_ending(polling, before, ending);
    law_report(reporting, before, report, now);
    lemma_performed_concat(task, opening(before), rounds(outcomes));
    lemma_performed_concat(task, opening(before) + rounds(outcomes), ending);
    lemma_performed_concat(task, opening(before) + rounds(outcomes) + ending, closing);
    assert(performed(polling, ending) =~= ending_actions(key, ending.len() == 2));
}

/// A pane that cannot be looked at ends a task without a word: it leaves the
/// registry and is over, be it before polling or after it.
pub proof fn law_no_word_without_a_pane(task: TaskView)
    requires
        task.phase is CapturingFirst || task.phase is CapturingLast,
    ensures
        ({
            let events = seq![PollEventView::CaptureFailed] + seq![PollEventView::Deregistered];
            &&& run(task, events).phase == PhaseView::Done
            &&& performed(task, events) == seq![
                PollActionView::CapturePane { pane: task.pane },
                PollActionView::Deregister { key: task.key },
            ]
        }),
{
    let failed = step(task, PollEventView::CaptureFailed);
    lemma_performed_one(task, PollEventView::CaptureFailed);
    lemma_performed_one(failed, PollEventView::Deregistered);
    lemma_performed_concat(
        task,
        seq![PollEventView::CaptureFailed],
        seq![PollEventView::Deregistered],
    );
    assert(performed(
        task,
        seq![PollEventView::CaptureFailed] + seq![PollEventView::Deregistered],
    ) =~= seq![
        PollActionView::CapturePane { pane: task.pane },
        PollActionView::Deregister { key: task.key },
    ]);
}

/// Whether nothing is said, in the pane or on the desktop.
pub open spec fn silent(actions: Seq<PollActionView>) -> bool {
    forall|i: int|
        0 <= i < actions.len() ==> !(#[trigger] actions[i] is SendPrompt) && !(
        actions[i] is SendAlert)
}

proof fn lemma_rounds_are_silent(key: PipelineName, n: nat)
    ensures
        silent(round_actions(key, n)),
    decreases n,
{
    if n > 0 {
        lemma_rounds_are_silent(key, (n - 1) as nat);
    }
}

/// The whole life of a task whose first look at the pane fails: it waits,
/// looks, leaves the registry, and is over. No status is asked for, and nothing
/// is said.
pub proof fn law_whole_life_without_a_first_look(
    key: PipelineName,
    pane: Seq<char>,
    mode: NotifyMode,
)
    ensures
        ({
            let events = seq![PollEventView::Slept] + (seq![PollEventView::CaptureFailed] + seq![
                PollEventView::Deregistered,
            ]);
            &&& run(fresh(key, pane, mode), events).phase == PhaseView::Done
            &&& performed(fresh(key, pane, mode), events) == seq![
                PollActionView::Sleep { secs: SETTLE_SECS },
                PollActionView::CapturePane { pane },
                PollActionView::Deregister { key },
            ]
            &&& silent(performed(fresh(key, pane, mode), events))
        }),
{
    let task = fresh(key, pane, mode);
    let looking = step(task, PollEventView::Slept);
    let closing = seq![PollEventView::CaptureFailed] + seq![PollEventView::Deregistered];
    lemma_performed_one(task, PollEventView::Slept);
    law_no_word_without_a_pane(looking);
    lemma_performed_concat(task, seq![PollEventView::Slept], closing);
    assert(performed(task, seq![PollEventView::Slept] + closing) =~= seq![
        PollActionView::Sleep { secs: SETTLE_SECS },
        PollActionView::CapturePane { pane },
        PollActionView::Deregister { key },
    ]);
}

/// The whole life of a task whose last look at the pane fails: it does all it
/// does up to that look, leaves the registry, and is over. Nothing is said.
pub proof fn law_whole_life_without_a_last_look(
    key: PipelineName,
    pane: Seq<char>,
    mode: NotifyMode,
    before: Seq<char>,
    outcomes: Seq<PollEventView>,
    ending: Seq<PollEventView>,
)
    requires
        forall|i: int| 0 <= i < outcomes.len() ==> inconclusive(#[trigger] outcomes[i]),
        conclusion(ending) is Some,
    ensures
        ({
            let events = opening(before) + rounds(outcomes) + ending + (seq![
                PollEventView::CaptureFailed,
            ] + seq![PollEventView::Deregistered]);
            &&& run(fresh(key, pane, mode), events).phase == PhaseView::Done
            &&& performed(fresh(key, pane, mode), events) == opening_actions(pane)
                + round_actions(key, outcomes.len()) + ending_actions(key, ending.len() == 2)
                + seq![PollActionView::CapturePane { pane }, PollActionView::Deregister { key }]
            &&& silent(performed(fresh(key, pane, mode), events))
        }),
{
    let task = fresh(key, pane, mode);
    let polling = TaskView { phase: PhaseView::Fetching { before }, ..task };
    let reporting = TaskView {
        phase: PhaseView::CapturingLast { before, status: conclusion(ending)->0 },
        ..task
    };
    let closing = seq![PollEventView::CaptureFailed] + seq![PollEventView::Deregistered];
    lemma_opening(task, before);
    law_polling_goes_on(polling, before, outcomes);
    lemma_ending(polling, before, ending);
    law_no_word_without_a_pane(reporting);
    lemma_performed_concat(task, opening(before), rounds(outcomes));
    lemma_performed_concat(task, opening(before) + rounds(outcomes), ending);
    lemma_performed_concat(task, opening(before) + rounds(outcomes) + ending, closing);
    assert(performed(polling, ending) =~= ending_actions(key, ending.len() == 2));
    lemma_rounds_are_silent(key, outcomes.len());
}

/// What tells the life of one task that has looked at its pane from that of
/// another.
pub struct Life {
    /// What the pane showed at first.
    pub before: Seq<char>,
    /// How often it was asked in vain and waited.
    pub rounds: nat,
    /// Whether polling ended while waiting.
    pub waits: bool,
    /// What was to be reported.
    pub status: Seq<char>,
    /// What the pane showed at last; nothing if that look failed.
    pub now: Option<Seq<char>>,
}

/// The actions of a task after polling.
pub open spec fn closing_actions(
    key: PipelineName,
    pane: Seq<char>,
    mode: NotifyMode,
    life: Life,
) -> Seq<PollActionView> {
    seq![PollActionView::CapturePane { pane }] + (match life.now {
        Some(now) => sent(
            key,
            pane,
            life.status,
            notices_for(mode, pane_unchanged(life.before, now)),
        ),
        None => seq![],
    }) + seq![PollActionView::Deregister { key }]
}

/// The actions of a task from the first question on.
pub open spec fn polling_actions(
    key: PipelineName,
    pane: Seq<char>,
    mode: NotifyMode,
    life: Life,
) -> Seq<PollActionView> {
    round_actions(key, life.rounds) + ending_actions(key, life.waits) + closing_actions(
        key,
        pane,
        mode,
        life,
    )
}

/// Whether a life can be: what is reported is one of five words, and whoever
/// ends polling while waiting has run out of time.
pub open spec fn possible(life: Life) -> bool {
    is_report(life.status) && (life.waits ==> life.status == "TIMEOUT"@)
}

/// The first event that moves a task that ends, and the events after it.
proof fn lemma_first_move(task: TaskView, events: Seq<PollEventView>) -> (split: (
    PollEventView,
    Seq<PollEventView>,
))
    requires
        task.phase != PhaseView::Done,
        run(task, events).phase == PhaseView::Done,
    ensures
        step(task, split.0).phase != task.phase,
        run(step(task, split.0), split.1).phase == PhaseView::Done,
        performed(task, events) == seq![poll_action(task)] + performed(
            step(task, split.0),
            split.1,
        ),
        split.1.len() < events.len(),
    decreases events.len(),
{
    let next = step(task, events.first());
    let rest = events.drop_first();
    if next.phase == task.phase {
        assert(next == task);
        assert(left_behind(task, events) == left_behind(task, rest));
        lemma_first_move(task, rest)
    } else {
        assert(performed(task, events) =~= seq![poll_action(task)] + performed(next, rest));
        (events.first(), rest)
    }
}

proof fn lemma_last_steps(task: TaskView, events: Seq<PollEventView>)
    requires
        task.phase is Leaving || task.phase is Alerting || task.phase is Prompting,
        run(task, events).phase == PhaseView::Done,
    ensures
        performed(task, events) == (match task.phase {
            PhaseView::Prompting { status, desktop } => sent(
                task.key,
                task.pane,
                status,
                Notices { prompt: true, desktop },
            ),
            PhaseView::Alerting { status, agent_prompted } => sent(
                task.key,
                task.pane,
                status,
                Notices { prompt: false, desktop: Some(agent_prompted) },
            ),
            _ => seq![],
        }) + seq![PollActionView::Deregister { key: task.key }],
    decreases events.len(),
{
    let (event, rest) = lemma_first_move(task, events);
    let next = step(task, event);
    if task.phase is Leaving {
        lemma_done_stays(next, rest);
        assert(performed(task, events) =~= seq![] + seq![
            PollActionView::Deregister { key: task.key },
        ]);
    } else {
        lemma_last_steps(next, rest);
        match task.phase {
            PhaseView::Prompting { status, desktop } => {
                assert(performed(task, events) =~= sent(
                    task.key,
                    task.pane,
                    status,
                    Notices { prompt: true, desktop },
                ) + seq![PollActionView::Deregister { key: task.key }]);
            },
            PhaseView::Alerting { status, agent_prompted } => {
                assert(performed(task, events) =~= sent(
                    task.key,
                    task.pane,
                    status,
                    Notices { prompt: false, desktop: Some(agent_prompted) },
                ) + seq![PollActionView::Deregister { key: task.key }]);
            },
            _ => {},
        }
    }
}

proof fn lemma_closing(
    task: TaskView,
    before: Seq<char>,
    status: Seq<char>,
    events: Seq<PollEventView>,
) -> (now: Option<Seq<char>>)
    requires
        task.phase == (PhaseView::CapturingLast { before, status }),
        run(task, events).phase == PhaseView::Done,
    ensures
        performed(task, events) == closing_actions(
            task.key,
            task.pane,
            task.mode,
            Life { before, rounds: 0, waits: false, status, now },
        ),
{
    let (event, rest) = lemma_first_move(task, events);
    let next = step(task, event);
    lemma_last_steps(next, rest);
    let now = match event {
        PollEventView::Captured { content } => Some(content),
        _ => None,
    };
    let life = Life { before, rounds: 0, waits: false, status, now };
    assert(performed(task, events) =~= closing_actions(task.key, task.pane, task.mode, life));
    now
}

proof fn lemma_polling(task: TaskView, before: Seq<char>, events: Seq<PollEventView>) -> (life:
    Life)
    requires
        task.phase == (PhaseView::Fetching { before }),
        run(task, events).phase == PhaseView::Done,
    ensures
        possible(life),
        performed(task, events) == polling_actions(task.key, task.pane, task.mode, life),
    decreases events.len(),
{
    let key = task.key;
    let (event, rest) = lemma_first_move(task, events);
    let next = step(task, event);
    match next.phase {
        PhaseView::CapturingLast { status, .. } => {
            let now = lemma_closing(next, before, status, rest);
            let life = Life { before, rounds: 0, waits: false, status, now };
            assert(performed(task, events) =~= polling_actions(key, task.pane, task.mode, life));
            life
        },
        _ => {
            let (event2, rest2) = lemma_first_move(next, rest);
            let next2 = step(next, event2);
            match next2.phase {
                PhaseView::CapturingLast { status, .. } => {
                    let now = lemma_closing(next2, before, status, rest2);
                    let life = Life { before, rounds: 0, waits: true, status, now };
                    assert(performed(task, events) =~= polling_actions(
                        key,
                        task.pane,
                        task.mode,
                        life,
                    ));
                    life
                },
                _ => {
                    assert(next2 == task);
                    let later = lemma_polling(task, before, rest2);
                    let life = Life { rounds: later.rounds + 1, ..later };
                    assert(round_actions(key, life.rounds) == seq![
                        PollActionView::FetchStatus { key },
                        PollActionView::Sleep { secs: POLLING_INTERVAL_SECS },
                    ] + round_actions(key, later.rounds));
                    assert(performed(task, events) =~= polling_actions(
                        key,
                        task.pane,
                        task.mode,
                        life,
                    ));
                    life
                },
            }
        },
    }
}

/// There is no other life: whatever happens to a task in whatever order, once
/// it is over it has waited, looked at the pane in vain and left the registry,
/// or it has begun as it should, asked and waited in turn, looked at the pane,
/// sent what its mode asks for if that look succeeded and nothing if it failed,
/// and left the registry.
pub proof fn law_no_other_life(
    key: PipelineName,
    pane: Seq<char>,
    mode: NotifyMode,
    events: Seq<PollEventView>,
)
    requires
        run(fresh(key, pane, mode), events).phase == PhaseView::Done,
    ensures
        ({
            let actions = performed(fresh(key, pane, mode), events);
            ||| actions == seq![
                PollActionView::Sleep { secs: SETTLE_SECS },
                PollActionView::CapturePane { pane },
                PollActionView::Deregister { key },
            ]
            ||| exists|life: Life|
                possible(life) && actions == opening_actions(pane) + #[trigger] polling_actions(
                    key,
                    pane,
                    mode,
                    life,
                )
        }),
{
    let task = fresh(key, pane, mode);
    let actions = performed(task, events);
    let (slept, rest1) = lemma_first_move(task, events);
    let looking = step(task, slept);
    let (look, rest2) = lemma_first_move(looking, rest1);
    let looked = step(looking, look);
    match looked.phase {
        PhaseView::Arming { before } => {
            let (armed, rest3) = lemma_first_move(looked, rest2);
            let asking = step(looked, armed);
            let life = lemma_polling(asking, before, rest3);
            assert(actions =~= opening_actions(pane) + polling_actions(key, pane, mode, life));
        },
        _ => {
            lemma_last_steps(looked, rest2);
            assert(actions =~= seq![
                PollActionView::Sleep { secs: SETTLE_SECS },
                PollActionView::CapturePane { pane },
                PollActionView::Deregister { key },
            ]);
        },
    }
}

/// The phases of a task in order, the last of them the one it is in.
pub open spec fn trail(task: TaskView, events: Seq<PollEventView>) -> Seq<PhaseView> {
    left_behind(task, events).push(run(task, events).phase)
}

/// The actions of a task in order, the last of them the one that is under way.
pub open spec fn undertaken(task: TaskView, events: Seq<PollEventView>) -> Seq<PollActionView> {
    performed(task, events).push(poll_action(run(task, events)))
}

/// Whether a phase up to the end of polling can come after another.
spec fn can_follow(a: PhaseView, b: PhaseView) -> bool {
    match b {
        PhaseView::Settling => false,
        PhaseView::CapturingFirst => a is Settling,
        PhaseView::Arming { .. } => a is CapturingFirst,
        PhaseView::Fetching { .. } => a is Arming || a is Pausing,
        PhaseView::Pausing { .. } => a is Fetching,
        _ => true,
    }
}

proof fn lemma_trail(task: TaskView, events: Seq<PollEventView>)
    ensures
        trail(task, events)[0] == task.phase,
        forall|i: int|
            0 < i < trail(task, events).len() ==> can_follow(
                trail(task, events)[i - 1],
                #[trigger] trail(task, events)[i],
            ),
    decreases events.len(),
{
    if events.len() > 0 {
        let next = step(task, events.first());
        let rest = events.drop_first();
        lemma_trail(next, rest);
        let all = trail(task, events);
        let tail = trail(next, rest);
        if next.phase == task.phase {
            assert(all == tail);
        } else {
            assert(all =~= seq![task.phase] + tail);
            assert forall|i: int| 0 < i < all.len() implies can_follow(
                all[i - 1],
                #[trigger] all[i],
            ) by {
                assert(all[i] == tail[i - 1]);
                if i > 1 {
                    assert(all[i - 1] == tail[i - 2]);
                }
            }
        }
    }
}

proof fn lemma_asking_follows(phases: Seq<PhaseView>, i: int)
    requires
        phases.len() > 0,
        phases[0] is Settling,
        forall|k: int| 0 < k < phases.len() ==> can_follow(phases[k - 1], #[trigger] phases[k]),
        0 <= i < phases.len(),
        phases[i] is Fetching,
    ensures
        3 <= i,
        phases[1] is CapturingFirst,
        phases[2] is Arming,
        i == 3 || (5 <= i && phases[i - 1] is Pausing && phases[i - 2] is Fetching),
    decreases i,
{
    assert(can_follow(phases[i - 1], phases[i]));
    assert(can_follow(phases[i - 2], phases[i - 1]));
    if phases[i - 1] is Pausing {
        lemma_asking_follows(phases, i - 2);
    } else {
        assert(can_follow(phases[i - 3], phases[i - 2]));
        if i > 3 {
            assert(can_follow(phases[i - 4], phases[i - 3]));
        }
    }
}

/// Whatever happens to a task in whatever order, it asks for a status only
/// after it has waited for the pane to settle, looked at it and set the time
/// limit, and, unless it asks for the first time, right after it has waited for
/// the polling interval since it last asked.
pub proof fn law_asks_only_after_waiting(
    key: PipelineName,
    pane: Seq<char>,
    mode: NotifyMode,
    events: Seq<PollEventView>,
    i: int,
)
    requires
        0 <= i < undertaken(fresh(key, pane, mode), events).len(),
        undertaken(fresh(key, pane, mode), events)[i] is FetchStatus,
    ensures
        ({
            let actions = undertaken(fresh(key, pane, mode), events);
            &&& 3 <= i
            &&& actions.take(3) == opening_actions(pane)
            &&& i > 3 ==> {
                &&& actions[i - 1] == (PollActionView::Sleep { secs: POLLING_INTERVAL_SECS })
                &&& actions[i - 2] == (PollActionView::FetchStatus { key })
            }
        }),
{
    let task = fresh(key, pane, mode);
    let phases = trail(task, events);
    let actions = undertaken(task, events);
    lemma_run_keeps(task, events);
    lemma_trail(task, events);
    assert forall|k: int| 0 <= k < actions.len() implies #[trigger] actions[k] == poll_action(
        TaskView { phase: phases[k], ..task },
    ) by {
        if k == phases.len() - 1 {
            assert(run(task, events) == (TaskView { phase: phases[k], ..task }));
        }
    }
    assert(phases[i] is Fetching);
    lemma_asking_follows(phases, i);
    assert(actions.take(3) =~= opening_actions(pane));
}

/// If the session has not changed, the agent is prompted, in every mode. If it
/// has changed, the agent is left alone, and the user gets a notification in
/// every mode but the one that forbids it.
pub proof fn law_agent_or_user_is_told(mode: NotifyMode, before: Seq<char>, now: Seq<char>)
    ensures
        ({
            let notices = notices_for(mode, pane_unchanged(before, now));
            &&& notices.prompt <==> pane_unchanged(before, now)
            &&& !pane_unchanged(before, now) && mode != NotifyMode::Never ==> notices.desktop
                == Some(false)
            &&& mode == NotifyMode::Never ==> notices.desktop is None
            &&& mode == NotifyMode::Always ==> notices.desktop is Some
            &&& mode == NotifyMode::PaneContentsChanged ==> (notices.desktop is Some
                <==> !pane_unchanged(before, now))
            &&& notices.desktop matches Some(agent_prompted) ==> agent_prompted == notices.prompt
        }),
{
}

} // verus!
