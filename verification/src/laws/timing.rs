//! When a polling task does what it does.

use crate::laws::polling::{fresh, law_stages_only_rise, left_behind, performed, stage, step};
use crate::notify::NotifyMode;
use crate::poll::{
    poll_action, PhaseView, PollActionView, PollEventView, TaskView, POLLING_INTERVAL_SECS,
    POLLING_TIMEOUT_SECS, SETTLE_SECS,
};
use crate::protocol::PipelineName;
use vstd::prelude::*;

verus! {

/// An event and the time at which it comes, in nanoseconds.
pub struct TimedEvent {
    pub event: PollEventView,
    pub at: int,
}

/// Seconds in nanoseconds.
pub open spec fn nanos(secs: u64) -> int {
    secs * 1_000_000_000
}

/// The events without their times.
pub open spec fn untimed(events: Seq<TimedEvent>) -> Seq<PollEventView> {
    events.map_values(|e: TimedEvent| e.event)
}

/// The actions of a task that is where it is since some time, each with the
/// time at which it begins; the last is the one that is under way.
pub open spec fn timeline(task: TaskView, since: int, events: Seq<TimedEvent>) -> Seq<
    (PollActionView, int),
>
    decreases events.len(),
{
    if events.len() == 0 {
        seq![(poll_action(task), since)]
    } else {
        let next = step(task, events.first().event);
        if next.phase == task.phase {
            timeline(task, since, events.drop_first())
        } else {
            seq![(poll_action(task), since)] + timeline(
                next,
                events.first().at,
                events.drop_first(),
            )
        }
    }
}

/// Whether the clock goes as it should. No action is over before it begins. To
/// sleep takes no less than the time that is asked for. Once the time limit is
/// set, whatever ends an action of polling comes within it, except the word
/// that it is reached.
pub open spec fn on_time(
    task: TaskView,
    since: int,
    limit: Option<int>,
    events: Seq<TimedEvent>,
) -> bool
    decreases events.len(),
{
    if events.len() == 0 {
        true
    } else {
        let event = events.first().event;
        let at = events.first().at;
        let next = step(task, event);
        if next.phase == task.phase {
            on_time(task, since, limit, events.drop_first())
        } else {
            &&& since <= at
            &&& match poll_action(task) {
                PollActionView::Sleep { secs } => event == PollEventView::Slept ==> since + nanos(
                    secs,
                ) <= at,
                _ => true,
            }
            &&& match limit {
                Some(end) => task.phase is Fetching || task.phase is Pausing ==> event
                    == PollEventView::TimedOut || at <= end,
                None => true,
            }
            &&& on_time(
                next,
                at,
                match poll_action(task) {
                    PollActionView::StartTimeout { secs } => Some(at + nanos(secs)),
                    _ => limit,
                },
                events.drop_first(),
            )
        }
    }
}

/// The times at which a status is asked for.
pub open spec fn reads(line: Seq<(PollActionView, int)>) -> Seq<int>
    decreases line.len(),
{
    if line.len() == 0 {
        seq![]
    } else if line.first().0 is FetchStatus {
        seq![line.first().1] + reads(line.drop_first())
    } else {
        reads(line.drop_first())
    }
}

/// Whether any two of the times are the polling interval or more apart, in
/// order.
pub open spec fn spaced(times: Seq<int>) -> bool {
    forall|i: int, j: int|
        #![trigger times[i], times[j]]
        0 <= i < j < times.len() ==> times[i] + nanos(POLLING_INTERVAL_SECS) <= times[j]
}

/// The time at which the first look at the pane succeeds, if it has.
pub open spec fn first_look(task: TaskView, events: Seq<TimedEvent>) -> Option<int>
    decreases events.len(),
{
    if events.len() == 0 {
        None
    } else if task.phase is CapturingFirst && events.first().event is Captured {
        Some(events.first().at)
    } else {
        first_look(step(task, events.first().event), events.drop_first())
    }
}

/// The actions on the timeline are those that are carried out, followed by the
/// one that is under way.
pub proof fn law_timeline_tells_what_is_performed(
    task: TaskView,
    since: int,
    events: Seq<TimedEvent>,
)
    ensures
        timeline(task, since, events).len() > 0,
        timeline(task, since, events).drop_last().map_values(|a: (PollActionView, int)| a.0)
            == performed(task, untimed(events)),
    decreases events.len(),
{
    let first_of = |a: (PollActionView, int)| a.0;
    let line = timeline(task, since, events);
    if events.len() == 0 {
        assert(line.drop_last().map_values(first_of) =~= performed(task, untimed(events)));
    } else {
        let next = step(task, events.first().event);
        let rest = events.drop_first();
        assert(untimed(events).drop_first() =~= untimed(rest));
        assert(untimed(events).first() == events.first().event);
        if next.phase == task.phase {
            assert(next == task);
            law_timeline_tells_what_is_performed(task, since, rest);
        } else {
            let at = events.first().at;
            let tail = timeline(next, at, rest);
            law_timeline_tells_what_is_performed(next, at, rest);
            assert(line == seq![(poll_action(task), since)] + tail);
            assert(line.drop_last().map_values(first_of) =~= seq![poll_action(task)]
                + tail.drop_last().map_values(first_of));
            assert(left_behind(task, untimed(events)) == seq![task.phase] + left_behind(
                next,
                untimed(rest),
            ));
            assert(performed(task, untimed(events)) =~= seq![poll_action(task)] + performed(
                next,
                untimed(rest),
            ));
        }
    }
}

proof fn lemma_reads_cons(first: (PollActionView, int), rest: Seq<(PollActionView, int)>)
    ensures
        reads(seq![first] + rest) == (if first.0 is FetchStatus {
            seq![first.1] + reads(rest)
        } else {
            reads(rest)
        }),
{
    assert((seq![first] + rest).drop_first() =~= rest);
}

proof fn lemma_reads_one(only: (PollActionView, int))
    ensures
        reads(seq![only]) == (if only.0 is FetchStatus {
            seq![only.1]
        } else {
            seq![]
        }),
{
    lemma_reads_cons(only, seq![]);
    assert(seq![only] + seq![] =~= seq![only]);
    assert(seq![only.1] + reads(seq![]) =~= seq![only.1]);
}

/// After polling no status is asked for.
proof fn lemma_no_reads_after_polling(task: TaskView, since: int, events: Seq<TimedEvent>)
    requires
        stage(task.phase) > 3,
    ensures
        reads(timeline(task, since, events)) == Seq::<int>::empty(),
    decreases events.len(),
{
    lemma_reads_one((poll_action(task), since));
    if events.len() > 0 {
        let next = step(task, events.first().event);
        let rest = events.drop_first();
        law_stages_only_rise(task.phase, task.mode, events.first().event);
        if next.phase == task.phase {
            lemma_no_reads_after_polling(task, since, rest);
        } else {
            let at = events.first().at;
            lemma_no_reads_after_polling(next, at, rest);
            lemma_reads_cons((poll_action(task), since), timeline(next, at, rest));
        }
    }
}

/// While polling, the time that is left bounds how often a status is asked for.
proof fn lemma_reads_while_polling(
    task: TaskView,
    since: int,
    limit: int,
    events: Seq<TimedEvent>,
)
    requires
        task.phase is Fetching || task.phase is Pausing,
        since <= limit,
        on_time(task, since, Some(limit), events),
    ensures
        ({
            let times = reads(timeline(task, since, events));
            &&& spaced(times)
            &&& task.phase is Fetching ==> {
                &&& times.len() <= (limit - since) / nanos(POLLING_INTERVAL_SECS) + 1
                &&& forall|i: int| 0 <= i < times.len() ==> since <= #[trigger] times[i]
            }
            &&& task.phase is Pausing ==> {
                &&& times.len() <= (limit - since) / nanos(POLLING_INTERVAL_SECS)
                &&& forall|i: int|
                    0 <= i < times.len() ==> since + nanos(POLLING_INTERVAL_SECS)
                        <= #[trigger] times[i]
            }
        }),
    decreases events.len(),
{
    assert(nanos(POLLING_INTERVAL_SECS) == 30_000_000_000);
    lemma_reads_one((poll_action(task), since));
    if events.len() > 0 {
        let event = events.first().event;
        let at = events.first().at;
        let next = step(task, event);
        let rest = events.drop_first();
        if next.phase == task.phase {
            lemma_reads_while_polling(task, since, limit, rest);
        } else {
            let tail = timeline(next, at, rest);
            lemma_reads_cons((poll_action(task), since), tail);
            if next.phase is CapturingLast {
                lemma_no_reads_after_polling(next, at, rest);
            } else {
                lemma_reads_while_polling(next, at, limit, rest);
                if task.phase is Fetching {
                    let times = seq![since] + reads(tail);
                    assert forall|i: int, j: int|
                        #![trigger times[i], times[j]]
                        0 <= i < j < times.len() implies times[i] + nanos(POLLING_INTERVAL_SECS)
                        <= times[j] by {
                        assert(times[j] == reads(tail)[j - 1]);
                        if i > 0 {
                            assert(times[i] == reads(tail)[i - 1]);
                        }
                    }
                }
            }
        }
    }
}

/// How often the polling interval fits into the time limit.
proof fn lemma_intervals_in_limit()
    ensures
        POLLING_TIMEOUT_SECS / POLLING_INTERVAL_SECS == 120,
        nanos(POLLING_TIMEOUT_SECS) / nanos(POLLING_INTERVAL_SECS) == 120,
{
    let limit = nanos(POLLING_TIMEOUT_SECS);
    let interval = nanos(POLLING_INTERVAL_SECS);
    assert(limit / interval == 120) by (nonlinear_arith)
        requires
            limit == 3_600_000_000_000,
            interval == 30_000_000_000,
    ;
    assert(POLLING_TIMEOUT_SECS / POLLING_INTERVAL_SECS == 120) by (nonlinear_arith)
        requires
            POLLING_TIMEOUT_SECS == 3600,
            POLLING_INTERVAL_SECS == 30,
    ;
}

/// What holds of the times before polling has begun.
proof fn lemma_reads_from_the_start(task: TaskView, since: int, events: Seq<TimedEvent>)
    requires
        stage(task.phase) < 3,
        on_time(task, since, None, events),
    ensures
        ({
            let times = reads(timeline(task, since, events));
            &&& spaced(times)
            &&& times.len() <= POLLING_TIMEOUT_SECS / POLLING_INTERVAL_SECS + 1
            &&& forall|i: int|
                0 <= i < times.len() ==> since + (if task.phase is Settling {
                    nanos(SETTLE_SECS)
                } else {
                    0
                }) <= #[trigger] times[i]
            &&& stage(task.phase) < 2 && times.len() > 0 ==> {
                &&& first_look(task, events) is Some
                &&& first_look(task, events)->0 <= times[0]
            }
        }),
    decreases events.len(),
{
    lemma_intervals_in_limit();
    lemma_reads_one((poll_action(task), since));
    if events.len() > 0 {
        let event = events.first().event;
        let at = events.first().at;
        let next = step(task, event);
        let rest = events.drop_first();
        if next.phase == task.phase {
            assert(next == task);
            lemma_reads_from_the_start(task, since, rest);
        } else {
            lemma_reads_cons((poll_action(task), since), timeline(next, at, rest));
            if next.phase is Leaving {
                lemma_no_reads_after_polling(next, at, rest);
            } else if task.phase is Arming {
                lemma_reads_while_polling(next, at, at + nanos(POLLING_TIMEOUT_SECS), rest);
            } else {
                lemma_reads_from_the_start(next, at, rest);
            }
        }
    }
}

/// How often a status is asked for among some actions.
pub open spec fn count_reads(actions: Seq<PollActionView>) -> nat
    decreases actions.len(),
{
    if actions.len() == 0 {
        0
    } else {
        count_reads(actions.drop_last()) + (if actions.last() is FetchStatus {
            1nat
        } else {
            0nat
        })
    }
}

proof fn lemma_count_cons(first: PollActionView, rest: Seq<PollActionView>)
    ensures
        count_reads(seq![first] + rest) == count_reads(rest) + (if first is FetchStatus {
            1nat
        } else {
            0nat
        }),
    decreases rest.len(),
{
    let all = seq![first] + rest;
    if rest.len() == 0 {
        assert(all.drop_last() =~= seq![]);
        assert(all.last() == first);
        assert(count_reads(all.drop_last()) == 0);
    } else {
        assert(all.drop_last() =~= seq![first] + rest.drop_last());
        assert(all.last() == rest.last());
        lemma_count_cons(first, rest.drop_last());
    }
}

/// There are as many times as there are actions that ask.
proof fn lemma_reads_are_counted(line: Seq<(PollActionView, int)>)
    ensures
        reads(line).len() == count_reads(line.map_values(|a: (PollActionView, int)| a.0)),
    decreases line.len(),
{
    let first_of = |a: (PollActionView, int)| a.0;
    if line.len() > 0 {
        let rest = line.drop_first();
        lemma_reads_are_counted(rest);
        lemma_count_cons(line.first().0, rest.map_values(first_of));
        assert(line.map_values(first_of) =~= seq![line.first().0] + rest.map_values(first_of));
    }
}

/// A new task asks for no status before the pane has had its time to settle,
/// nor before the first look at the pane has succeeded. Any two times at which
/// it asks are at least the polling interval apart. In all it asks no more
/// often than the interval fits into the time limit, and once more: 121 times.
pub proof fn law_reads_are_spaced_and_few(
    key: PipelineName,
    pane: Seq<char>,
    mode: NotifyMode,
    start: int,
    events: Seq<TimedEvent>,
)
    requires
        on_time(fresh(key, pane, mode), start, None, events),
    ensures
        ({
            let task = fresh(key, pane, mode);
            let times = reads(timeline(task, start, events));
            &&& times.len() <= POLLING_TIMEOUT_SECS / POLLING_INTERVAL_SECS + 1
            &&& times.len() <= 121
            &&& count_reads(performed(task, untimed(events))) <= 121
            &&& forall|i: int, j: int|
                #![trigger times[i], times[j]]
                0 <= i < j < times.len() ==> times[i] + nanos(POLLING_INTERVAL_SECS) <= times[j]
            &&& forall|i: int|
                #![trigger times[i]]
                0 <= i < times.len() ==> {
                    &&& start + nanos(SETTLE_SECS) <= times[i]
                    &&& first_look(task, events) is Some
                    &&& first_look(task, events)->0 <= times[i]
                }
        }),
{
    let task = fresh(key, pane, mode);
    let line = timeline(task, start, events);
    let first_of = |a: (PollActionView, int)| a.0;
    lemma_intervals_in_limit();
    lemma_reads_from_the_start(task, start, events);
    lemma_reads_are_counted(line);
    law_timeline_tells_what_is_performed(task, start, events);
    assert(line.map_values(first_of).drop_last() =~= line.drop_last().map_values(first_of));
}

} // verus!
