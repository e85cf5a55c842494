//! A polling task: watch one pipeline until it is done, then tell.

use crate::notify::{notices_for, pane_unchanged, Notices, NotifyMode};
use crate::protocol::{PipelineKey, PipelineName};
use crate::text::{ascii_upper, to_uppercase};
use vstd::prelude::*;
use vstd::string::*;
use vstd::utf8::*;

verus! {

/// How long a task waits before it first looks at its pane.
pub const SETTLE_SECS: u64 = 15;

/// How long a task waits between two looks at its pipeline.
pub const POLLING_INTERVAL_SECS: u64 = 30;

/// How long a task looks at its pipeline before it gives up.
pub const POLLING_TIMEOUT_SECS: u64 = 3600;

/// What is reported of a pipeline with this status; nothing while the
/// pipeline is not done.
pub open spec fn completed_as(status: Seq<char>) -> Option<Seq<char>> {
    if status == "success"@ {
        Some("SUCCESS"@)
    } else if status == "failed"@ {
        Some("FAILED"@)
    } else if status == "canceled"@ {
        Some("CANCELED"@)
    } else if status == "skipped"@ {
        Some("SKIPPED"@)
    } else {
        None
    }
}

/// The four statuses that end a pipeline are ASCII, and this is what they are
/// in upper case.
proof fn lemma_completion_states(status: Seq<char>)
    ensures
        completed_as(status) matches Some(label) ==> is_ascii_chars(status) && ascii_upper(status)
            == label,
{
    reveal_strlit("success");
    reveal_strlit("SUCCESS");
    reveal_strlit("failed");
    reveal_strlit("FAILED");
    reveal_strlit("canceled");
    reveal_strlit("CANCELED");
    reveal_strlit("skipped");
    reveal_strlit("SKIPPED");
    if let Some(label) = completed_as(status) {
        assert(ascii_upper(status) =~= label);
    }
}

/// Says what is reported of a pipeline with this status, if it is done.
pub fn completed_status(status: &String) -> (label: Option<String>)
    ensures
        (match label {
            Some(text) => Some(text@),
            None => None,
        }) == completed_as(status@),
{
    if *status == "success".to_string() || *status == "failed".to_string() || *status
        == "canceled".to_string() || *status == "skipped".to_string() {
        proof {
            lemma_completion_states(status@);
        }
        Some(to_uppercase(status.as_str()))
    } else {
        None
    }
}

/// What is reported at the end of polling: the status of the pipeline, that it
/// is unknown, or (outer `None`) that time ran out.
pub open spec fn final_status_of(polled: Option<Option<Seq<char>>>) -> Seq<char> {
    match polled {
        Some(Some(label)) => label,
        Some(None) => "UNKNOWN"@,
        None => "TIMEOUT"@,
    }
}

/// Says what is reported at the end of polling.
pub fn final_status(polled: Option<Option<String>>) -> (status: String)
    ensures
        status@ == final_status_of(
            match polled {
                Some(Some(label)) => Some(Some(label@)),
                Some(None) => Some(None),
                None => None,
            },
        ),
{
    match polled {
        Some(Some(label)) => label,
        Some(None) => "UNKNOWN".to_string(),
        None => "TIMEOUT".to_string(),
    }
}

/// How far a polling task has come.
#[derive(Debug, PartialEq, Eq)]
pub enum PollPhase {
    /// Waiting for the pane to settle.
    Settling,
    /// Looking at the pane before polling.
    CapturingFirst,
    /// Setting the time after which polling ends.
    Arming { before: String },
    /// Asking for the status of the pipeline.
    Fetching { before: String },
    /// Waiting to ask again.
    Pausing { before: String },
    /// Looking at the pane after polling.
    CapturingLast { before: String, status: String },
    /// Prompting the agent in the pane.
    Prompting { status: String, desktop: Option<bool> },
    /// Notifying the user on the desktop.
    Alerting { status: String, agent_prompted: bool },
    /// Leaving the registry.
    Leaving,
    /// The task is over.
    Done,
}

/// The same with texts as character sequences.
pub enum PhaseView {
    Settling,
    CapturingFirst,
    Arming { before: Seq<char> },
    Fetching { before: Seq<char> },
    Pausing { before: Seq<char> },
    CapturingLast { before: Seq<char>, status: Seq<char> },
    Prompting { status: Seq<char>, desktop: Option<bool> },
    Alerting { status: Seq<char>, agent_prompted: bool },
    Leaving,
    Done,
}

impl View for PollPhase {
    type V = PhaseView;

    open spec fn view(&self) -> PhaseView {
        match self {
            PollPhase::Settling => PhaseView::Settling,
            PollPhase::CapturingFirst => PhaseView::CapturingFirst,
            PollPhase::Arming { before } => PhaseView::Arming { before: before@ },
            PollPhase::Fetching { before } => PhaseView::Fetching { before: before@ },
            PollPhase::Pausing { before } => PhaseView::Pausing { before: before@ },
            PollPhase::CapturingLast { before, status } => PhaseView::CapturingLast {
                before: before@,
                status: status@,
            },
            PollPhase::Prompting { status, desktop } => PhaseView::Prompting {
                status: status@,
                desktop: *desktop,
            },
            PollPhase::Alerting { status, agent_prompted } => PhaseView::Alerting {
                status: status@,
                agent_prompted: *agent_prompted,
            },
            PollPhase::Leaving => PhaseView::Leaving,
            PollPhase::Done => PhaseView::Done,
        }
    }
}

/// What is to be done next for a polling task.
#[derive(Debug, PartialEq, Eq)]
pub enum PollAction {
    /// Wait.
    Sleep { secs: u64 },
    /// Look at what the pane shows.
    CapturePane { pane: String },
    /// From now on, report when this time has passed.
    StartTimeout { secs: u64 },
    /// Ask GitLab for the status of the pipeline.
    FetchStatus { key: PipelineKey },
    /// Type the outcome into the pane.
    SendPrompt { pane: String, status: String, merge_request_id: String },
    /// Show the outcome on the desktop.
    SendAlert { pane: String, status: String, merge_request_id: String, agent_prompted: bool },
    /// Take the pipeline out of the registry.
    Deregister { key: PipelineKey },
    /// Nothing is left to be done.
    Stop,
}

/// The same with texts as character sequences.
pub enum PollActionView {
    Sleep { secs: u64 },
    CapturePane { pane: Seq<char> },
    StartTimeout { secs: u64 },
    FetchStatus { key: PipelineName },
    SendPrompt { pane: Seq<char>, status: Seq<char>, merge_request_id: Seq<char> },
    SendAlert {
        pane: Seq<char>,
        status: Seq<char>,
        merge_request_id: Seq<char>,
        agent_prompted: bool,
    },
    Deregister { key: PipelineName },
    Stop,
}

impl View for PollAction {
    type V = PollActionView;

    open spec fn view(&self) -> PollActionView {
        match self {
            PollAction::Sleep { secs } => PollActionView::Sleep { secs: *secs },
            PollAction::CapturePane { pane } => PollActionView::CapturePane { pane: pane@ },
            PollAction::StartTimeout { secs } => PollActionView::StartTimeout { secs: *secs },
            PollAction::FetchStatus { key } => PollActionView::FetchStatus { key: key@ },
            PollAction::SendPrompt { pane, status, merge_request_id } => {
                PollActionView::SendPrompt {
                    pane: pane@,
                    status: status@,
                    merge_request_id: merge_request_id@,
                }
            },
            PollAction::SendAlert { pane, status, merge_request_id, agent_prompted } => {
                PollActionView::SendAlert {
                    pane: pane@,
                    status: status@,
                    merge_request_id: merge_request_id@,
                    agent_prompted: *agent_prompted,
                }
            },
            PollAction::Deregister { key } => PollActionView::Deregister { key: key@ },
            PollAction::Stop => PollActionView::Stop,
        }
    }
}

/// What came of an action.
#[derive(Debug, PartialEq, Eq)]
pub enum PollEvent {
    /// The time has passed.
    Slept,
    /// The pane shows this.
    Captured { content: String },
    /// The pane could not be looked at.
    CaptureFailed,
    /// The time limit is set.
    TimeoutStarted,
    /// The status of the pipeline; nothing if there is no pipeline yet.
    Fetched { status: Option<String> },
    /// The status could not be had.
    FetchFailed,
    /// The time limit was reached before the action was over.
    TimedOut,
    /// The agent was prompted, or could not be.
    Prompted,
    /// The user was notified, or could not be.
    Alerted,
    /// The pipeline is out of the registry.
    Deregistered,
}

/// The same with texts as character sequences.
pub enum PollEventView {
    Slept,
    Captured { content: Seq<char> },
    CaptureFailed,
    TimeoutStarted,
    Fetched { status: Option<Seq<char>> },
    FetchFailed,
    TimedOut,
    Prompted,
    Alerted,
    Deregistered,
}

impl View for PollEvent {
    type V = PollEventView;

    open spec fn view(&self) -> PollEventView {
        match self {
            PollEvent::Slept => PollEventView::Slept,
            PollEvent::Captured { content } => PollEventView::Captured { content: content@ },
            PollEvent::CaptureFailed => PollEventView::CaptureFailed,
            PollEvent::TimeoutStarted => PollEventView::TimeoutStarted,
            PollEvent::Fetched { status } => PollEventView::Fetched {
                status: match status {
                    Some(s) => Some(s@),
                    None => None,
                },
            },
            PollEvent::FetchFailed => PollEventView::FetchFailed,
            PollEvent::TimedOut => PollEventView::TimedOut,
            PollEvent::Prompted => PollEventView::Prompted,
            PollEvent::Alerted => PollEventView::Alerted,
            PollEvent::Deregistered => PollEventView::Deregistered,
        }
    }
}

/// A polling task: what it watches, for which pane, and how far it has come.
#[derive(Debug, PartialEq, Eq)]
pub struct PollTask {
    pub key: PipelineKey,
    pub pane: String,
    pub mode: NotifyMode,
    pub phase: PollPhase,
}

/// The same with texts as character sequences.
#[verifier::ext_equal]
pub struct TaskView {
    pub key: PipelineName,
    pub pane: Seq<char>,
    pub mode: NotifyMode,
    pub phase: PhaseView,
}

impl View for PollTask {
    type V = TaskView;

    open spec fn view(&self) -> TaskView {
        TaskView { key: self.key@, pane: self.pane@, mode: self.mode, phase: self.phase@ }
    }
}

/// The action that a task waits for.
pub open spec fn poll_action(task: TaskView) -> PollActionView {
    match task.phase {
        PhaseView::Settling => PollActionView::Sleep { secs: SETTLE_SECS },
        PhaseView::CapturingFirst => PollActionView::CapturePane { pane: task.pane },
        PhaseView::Arming { .. } => PollActionView::StartTimeout { secs: POLLING_TIMEOUT_SECS },
        PhaseView::Fetching { .. } => PollActionView::FetchStatus { key: task.key },
        PhaseView::Pausing { .. } => PollActionView::Sleep { secs: POLLING_INTERVAL_SECS },
        PhaseView::CapturingLast { .. } => PollActionView::CapturePane { pane: task.pane },
        PhaseView::Prompting { status, .. } => PollActionView::SendPrompt {
            pane: task.pane,
            status,
            merge_request_id: task.key.1,
        },
        PhaseView::Alerting { status, agent_prompted } => PollActionView::SendAlert {
            pane: task.pane,
            status,
            merge_request_id: task.key.1,
            agent_prompted,
        },
        PhaseView::Leaving => PollActionView::Deregister { key: task.key },
        PhaseView::Done => PollActionView::Stop,
    }
}

/// Where a task goes that has nothing left to say in the pane.
pub open spec fn after_prompt(status: Seq<char>, desktop: Option<bool>) -> PhaseView {
    match desktop {
        Some(agent_prompted) => PhaseView::Alerting { status, agent_prompted },
        None => PhaseView::Leaving,
    }
}

/// Where a task goes that knows what is to be sent.
pub open spec fn after_decision(status: Seq<char>, notices: Notices) -> PhaseView {
    if notices.prompt {
        PhaseView::Prompting { status, desktop: notices.desktop }
    } else {
        after_prompt(status, notices.desktop)
    }
}

/// Where a task goes on learning the status of its pipeline.
pub open spec fn after_fetch(before: Seq<char>, status: Option<Seq<char>>) -> PhaseView {
    match status {
        Some(s) => match completed_as(s) {
            Some(label) => PhaseView::CapturingLast {
                before,
                status: final_status_of(Some(Some(label))),
            },
            None => PhaseView::Pausing { before },
        },
        None => PhaseView::Pausing { before },
    }
}

/// How an event moves a task on. An event that the task does not wait for
/// changes nothing.
pub open spec fn poll_next(
    phase: PhaseView,
    mode: NotifyMode,
    event: PollEventView,
) -> PhaseView {
    match (phase, event) {
        (PhaseView::Settling, PollEventView::Slept) => PhaseView::CapturingFirst,
        (PhaseView::CapturingFirst, PollEventView::Captured { content }) => PhaseView::Arming {
            before: content,
        },
        (PhaseView::CapturingFirst, PollEventView::CaptureFailed) => PhaseView::Leaving,
        (PhaseView::Arming { before }, PollEventView::TimeoutStarted) => PhaseView::Fetching {
            before,
        },
        (PhaseView::Fetching { before }, PollEventView::Fetched { status }) => after_fetch(
            before,
            status,
        ),
        (PhaseView::Fetching { before }, PollEventView::FetchFailed) => PhaseView::Pausing {
            before,
        },
        (PhaseView::Fetching { before }, PollEventView::TimedOut) => PhaseView::CapturingLast {
            before,
            status: final_status_of(None),
        },
        (PhaseView::Pausing { before }, PollEventView::Slept) => PhaseView::Fetching { before },
        (PhaseView::Pausing { before }, PollEventView::TimedOut) => PhaseView::CapturingLast {
            before,
            status: final_status_of(None),
        },
        (PhaseView::CapturingLast { before, status }, PollEventView::Captured { content }) => {
            after_decision(status, notices_for(mode, pane_unchanged(before, content)))
        },
        (PhaseView::CapturingLast { .. }, PollEventView::CaptureFailed) => PhaseView::Leaving,
        (PhaseView::Prompting { status, desktop }, PollEventView::Prompted) => after_prompt(
            status,
            desktop,
        ),
        (PhaseView::Alerting { .. }, PollEventView::Alerted) => PhaseView::Leaving,
        (PhaseView::Leaving, PollEventView::Deregistered) => PhaseView::Done,
        _ => phase,
    }
}

impl PollPhase {
    /// Moves on from a pane that has nothing more to be told.
    fn past_prompt(status: String, desktop: Option<bool>) -> (next: PollPhase)
        ensures
            next@ == after_prompt(status@, desktop),
    {
        match desktop {
            Some(agent_prompted) => PollPhase::Alerting { status, agent_prompted },
            None => PollPhase::Leaving,
        }
    }

    /// Moves on by what is to be sent.
    fn past_decision(status: String, notices: Notices) -> (next: PollPhase)
        ensures
            next@ == after_decision(status@, notices),
    {
        if notices.prompt {
            PollPhase::Prompting { status, desktop: notices.desktop }
        } else {
            PollPhase::past_prompt(status, notices.desktop)
        }
    }

    /// Moves on by the status of the pipeline.
    fn past_fetch(before: String, status: Option<String>) -> (next: PollPhase)
        ensures
            next@ == after_fetch(
                before@,
                match status {
                    Some(s) => Some(s@),
                    None => None,
                },
            ),
    {
        match status {
            Some(s) => match completed_status(&s) {
                Some(label) => PollPhase::CapturingLast {
                    before,
                    status: final_status(Some(Some(label))),
                },
                None => PollPhase::Pausing { before },
            },
            None => PollPhase::Pausing { before },
        }
    }

    /// Moves on by what came of the action.
    pub fn next(self, mode: NotifyMode, event: PollEvent) -> (next: PollPhase)
        ensures
            next@ == poll_next(self@, mode, event@),
    {
        match (self, event) {
            (PollPhase::Settling, PollEvent::Slept) => PollPhase::CapturingFirst,
            (PollPhase::CapturingFirst, PollEvent::Captured { content }) => PollPhase::Arming {
                before: content,
            },
            (PollPhase::CapturingFirst, PollEvent::CaptureFailed) => PollPhase::Leaving,
            (PollPhase::Arming { before }, PollEvent::TimeoutStarted) => PollPhase::Fetching {
                before,
            },
            (PollPhase::Fetching { before }, PollEvent::Fetched { status }) => {
                PollPhase::past_fetch(before, status)
            },
            (PollPhase::Fetching { before }, PollEvent::FetchFailed) => PollPhase::Pausing {
                before,
            },
            (PollPhase::Fetching { before }, PollEvent::TimedOut) => PollPhase::CapturingLast {
                before,
                status: final_status(None),
            },
            (PollPhase::Pausing { before }, PollEvent::Slept) => PollPhase::Fetching { before },
            (PollPhase::Pausing { before }, PollEvent::TimedOut) => PollPhase::CapturingLast {
                before,
                status: final_status(None),
            },
            (PollPhase::CapturingLast { before, status }, PollEvent::Captured { content }) => {
                PollPhase::past_decision(
                    status,
                    Notices::decide(mode, before.as_str(), content.as_str()),
                )
            },
            (PollPhase::CapturingLast { .. }, PollEvent::CaptureFailed) => PollPhase::Leaving,
            (PollPhase::Prompting { status, desktop }, PollEvent::Prompted) => {
                PollPhase::past_prompt(status, desktop)
            },
            (PollPhase::Alerting { .. }, PollEvent::Alerted) => PollPhase::Leaving,
            (PollPhase::Leaving, PollEvent::Deregistered) => PollPhase::Done,
            (phase, _) => phase,
        }
    }
}

impl PollTask {
    /// A task that is about to watch a pipeline on behalf of a pane.
    pub fn new(key: PipelineKey, pane: String, mode: NotifyMode) -> (task: PollTask)
        ensures
            task@ == (TaskView { key: key@, pane: pane@, mode, phase: PhaseView::Settling }),
    {
        PollTask { key, pane, mode, phase: PollPhase::Settling }
    }

    /// What is to be done next.
    pub fn action(&self) -> (action: PollAction)
        ensures
            action@ == poll_action(self@),
    {
        match &self.phase {
            PollPhase::Settling => PollAction::Sleep { secs: SETTLE_SECS },
            PollPhase::CapturingFirst => PollAction::CapturePane { pane: self.pane.clone() },
            PollPhase::Arming { .. } => PollAction::StartTimeout { secs: POLLING_TIMEOUT_SECS },
            PollPhase::Fetching { .. } => PollAction::FetchStatus { key: self.key.clone() },
            PollPhase::Pausing { .. } => PollAction::Sleep { secs: POLLING_INTERVAL_SECS },
            PollPhase::CapturingLast { .. } => PollAction::CapturePane {
                pane: self.pane.clone(),
            },
            PollPhase::Prompting { status, .. } => PollAction::SendPrompt {
                pane: self.pane.clone(),
                status: status.clone(),
                merge_request_id: self.key.merge_request_id.clone(),
            },
            PollPhase::Alerting { status, agent_prompted } => PollAction::SendAlert {
                pane: self.pane.clone(),
                status: status.clone(),
                merge_request_id: self.key.merge_request_id.clone(),
                agent_prompted: *agent_prompted,
            },
            PollPhase::Leaving => PollAction::Deregister { key: self.key.clone() },
            PollPhase::Done => PollAction::Stop,
        }
    }

    /// Moves the task on by what came of the action.
    pub fn advance(self, event: PollEvent) -> (next: PollTask)
        ensures
            next@ == (TaskView { phase: poll_next(self@.phase, self@.mode, event@), ..self@ }),
    {
        PollTask {
            key: self.key,
            pane: self.pane,
            mode: self.mode,
            phase: self.phase.next(self.mode, event),
        }
    }
}

} // verus!
