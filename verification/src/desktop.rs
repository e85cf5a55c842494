//! Desktop notifications, and bringing a pane to the front from one.

use crate::command::{Exit, Invocation, InvocationView, Output};
use crate::text::{from_utf8_lossy, lossy_text, to_uppercase, trimmed, upper_case};
use vstd::prelude::*;
use vstd::string::*;

verus! {

/// How long the terminal gets to come to the front.
pub const FOCUS_DELAY_MILLIS: u64 = 200;

/// Why a pane could not be brought to the front.
#[derive(Copy, Clone, Debug, PartialEq, Eq, Structural)]
pub enum FocusError {
    /// The script that activates the terminal could not be run.
    ActivationNotRun,
    /// The script that activates the terminal failed.
    ActivationFailed,
    /// tmux could not be run.
    SwitchNotRun,
    /// tmux failed.
    SwitchFailed,
}

/// How an error of bringing a pane to the front is worded.
pub open spec fn focus_error_text(error: FocusError) -> Seq<char> {
    match error {
        FocusError::ActivationNotRun => "Failed to execute AppleScript to activate Kitty"@,
        FocusError::ActivationFailed => "AppleScript to activate terminal failed."@,
        FocusError::SwitchNotRun => "Failed to execute tmux to switch pane"@,
        FocusError::SwitchFailed => "tmux switch-client command failed."@,
    }
}

impl FocusError {
    /// The error in words.
    pub fn message(&self) -> (text: String)
        ensures
            text@ == focus_error_text(*self),
    {
        match self {
            FocusError::ActivationNotRun => {
                "Failed to execute AppleScript to activate Kitty".to_string()
            },
            FocusError::ActivationFailed => "AppleScript to activate terminal failed.".to_string(),
            FocusError::SwitchNotRun => "Failed to execute tmux to switch pane".to_string(),
            FocusError::SwitchFailed => "tmux switch-client command failed.".to_string(),
        }
    }
}

/// How far bringing a pane to the front has come.
#[derive(Debug, PartialEq, Eq)]
pub enum Focus {
    /// The terminal is to be activated.
    Activating { pane: String },
    /// The terminal is coming to the front.
    Waiting { pane: String },
    /// The pane is to be switched to.
    Switching { pane: String },
    /// It is over.
    Finished { outcome: Result<(), FocusError> },
}

/// The same with texts as character sequences.
pub enum FocusView {
    Activating { pane: Seq<char> },
    Waiting { pane: Seq<char> },
    Switching { pane: Seq<char> },
    Finished { outcome: Result<(), FocusError> },
}

impl View for Focus {
    type V = FocusView;

    open spec fn view(&self) -> FocusView {
        match self {
            Focus::Activating { pane } => FocusView::Activating { pane: pane@ },
            Focus::Waiting { pane } => FocusView::Waiting { pane: pane@ },
            Focus::Switching { pane } => FocusView::Switching { pane: pane@ },
            Focus::Finished { outcome } => FocusView::Finished { outcome: *outcome },
        }
    }
}

/// What is to be done next to bring a pane to the front.
#[derive(Debug, PartialEq, Eq)]
pub enum FocusAction {
    /// Run the command.
    Run { invocation: Invocation },
    /// Wait.
    Sleep { millis: u64 },
    /// Nothing is left to be done.
    Stop { outcome: Result<(), FocusError> },
}

/// The same with texts as character sequences.
pub enum FocusActionView {
    Run { invocation: InvocationView },
    Sleep { millis: u64 },
    Stop { outcome: Result<(), FocusError> },
}

impl View for FocusAction {
    type V = FocusActionView;

    open spec fn view(&self) -> FocusActionView {
        match self {
            FocusAction::Run { invocation } => FocusActionView::Run { invocation: invocation@ },
            FocusAction::Sleep { millis } => FocusActionView::Sleep { millis: *millis },
            FocusAction::Stop { outcome } => FocusActionView::Stop { outcome: *outcome },
        }
    }
}

/// What came of an action.
#[derive(Copy, Clone, Debug, PartialEq, Eq, Structural)]
pub enum FocusEvent {
    /// The command came to this end.
    Exited(Exit),
    /// The time has passed.
    Slept,
}

/// The action that bringing a pane to the front waits for.
pub open spec fn focus_action(focus: FocusView) -> FocusActionView {
    match focus {
        FocusView::Activating { .. } => FocusActionView::Run {
            invocation: InvocationView {
                program: "osascript"@,
                args: seq!["-e"@, "tell application \"Kitty\" to activate"@],
            },
        },
        FocusView::Waiting { .. } => FocusActionView::Sleep { millis: FOCUS_DELAY_MILLIS },
        FocusView::Switching { pane } => FocusActionView::Run {
            invocation: InvocationView {
                program: "tmux"@,
                args: seq!["switch-client"@, "-t"@, pane],
            },
        },
        FocusView::Finished { outcome } => FocusActionView::Stop { outcome },
    }
}

/// How an event moves on bringing a pane to the front: activate, wait, switch,
/// and stop at the first failure. Other events change nothing.
pub open spec fn focus_next(focus: FocusView, event: FocusEvent) -> FocusView {
    match (focus, event) {
        (FocusView::Activating { pane }, FocusEvent::Exited(exit)) => match exit {
            Exit::NotRun => FocusView::Finished { outcome: Err(FocusError::ActivationNotRun) },
            Exit::Failure => FocusView::Finished { outcome: Err(FocusError::ActivationFailed) },
            Exit::Success => FocusView::Waiting { pane },
        },
        (FocusView::Waiting { pane }, FocusEvent::Slept) => FocusView::Switching { pane },
        (FocusView::Switching { .. }, FocusEvent::Exited(exit)) => match exit {
            Exit::NotRun => FocusView::Finished { outcome: Err(FocusError::SwitchNotRun) },
            Exit::Failure => FocusView::Finished { outcome: Err(FocusError::SwitchFailed) },
            Exit::Success => FocusView::Finished { outcome: Ok(()) },
        },
        _ => focus,
    }
}

impl Focus {
    /// Begins to bring a pane to the front.
    pub fn new(pane_id: &str) -> (focus: Focus)
        ensures
            focus@ == (FocusView::Activating { pane: pane_id@ }),
    {
        Focus::Activating { pane: pane_id.to_string() }
    }

    /// What is to be done next.
    pub fn action(&self) -> (action: FocusAction)
        ensures
            action@ == focus_action(self@),
    {
        match self {
            Focus::Activating { .. } => {
                let invocation = Invocation::new(
                    "osascript",
                    &["-e", "tell application \"Kitty\" to activate"],
                );
                assert(invocation@.args =~= seq![
                    "-e"@,
                    "tell application \"Kitty\" to activate"@,
                ]);
                FocusAction::Run { invocation }
            },
            Focus::Waiting { .. } => FocusAction::Sleep { millis: FOCUS_DELAY_MILLIS },
            Focus::Switching { pane } => {
                let invocation = Invocation::new("tmux", &["switch-client", "-t", pane.as_str()]);
                assert(invocation@.args =~= seq!["switch-client"@, "-t"@, pane@]);
                FocusAction::Run { invocation }
            },
            Focus::Finished { outcome } => FocusAction::Stop { outcome: *outcome },
        }
    }

    /// Moves on by what came of the action.
    pub fn advance(self, event: FocusEvent) -> (next: Focus)
        ensures
            next@ == focus_next(self@, event),
    {
        match (self, event) {
            (Focus::Activating { pane }, FocusEvent::Exited(exit)) => match exit {
                Exit::NotRun => Focus::Finished { outcome: Err(FocusError::ActivationNotRun) },
                Exit::Failure => Focus::Finished { outcome: Err(FocusError::ActivationFailed) },
                Exit::Success => Focus::Waiting { pane },
            },
            (Focus::Waiting { pane }, FocusEvent::Slept) => Focus::Switching { pane },
            (Focus::Switching { .. }, FocusEvent::Exited(exit)) => match exit {
                Exit::NotRun => Focus::Finished { outcome: Err(FocusError::SwitchNotRun) },
                Exit::Failure => Focus::Finished { outcome: Err(FocusError::SwitchFailed) },
                Exit::Success => Focus::Finished { outcome: Ok(()) },
            },
            (focus, _) => focus,
        }
    }
}

/// Why a notification came to nothing.
#[derive(Debug, PartialEq, Eq)]
pub enum AlertError {
    /// The notifier is not installed.
    NotInstalled,
    /// The notifier could not be run.
    NotRun,
    /// The notifier failed and said this.
    Failed { stderr: String },
    /// The user asked for the pane, and it could not be brought to the front.
    Focus(FocusError),
}

/// The same with texts as character sequences.
pub enum AlertErrorView {
    NotInstalled,
    NotRun,
    Failed { stderr: Seq<char> },
    Focus(FocusError),
}

impl View for AlertError {
    type V = AlertErrorView;

    open spec fn view(&self) -> AlertErrorView {
        match self {
            AlertError::NotInstalled => AlertErrorView::NotInstalled,
            AlertError::NotRun => AlertErrorView::NotRun,
            AlertError::Failed { stderr } => AlertErrorView::Failed { stderr: stderr@ },
            AlertError::Focus(error) => AlertErrorView::Focus(*error),
        }
    }
}

/// How an error of notifying is worded.
pub open spec fn alert_error_text(error: AlertErrorView) -> Seq<char> {
    match error {
        AlertErrorView::NotInstalled => "`alerter` command not found. Please install with 'brew install alerter'."@,
        AlertErrorView::NotRun => "Failed to run alerter command"@,
        AlertErrorView::Failed { stderr } => "Alerter command failed: "@ + stderr,
        AlertErrorView::Focus(error) => focus_error_text(error),
    }
}

impl AlertError {
    /// The error in words.
    pub fn message(&self) -> (text: String)
        ensures
            text@ == alert_error_text(self@),
    {
        match self {
            AlertError::NotInstalled => "`alerter` command not found. Please install with 'brew install alerter'.".to_string(),
            AlertError::NotRun => "Failed to run alerter command".to_string(),
            AlertError::Failed { stderr } => "Alerter command failed: ".to_string().concat(
                stderr.as_str(),
            ),
            AlertError::Focus(error) => error.message(),
        }
    }
}

/// The title of a notification, with the status in upper case.
pub open spec fn alert_title_text(merge_request_id: Seq<char>, upper_status: Seq<char>) -> Seq<
    char,
> {
    "MR !"@ + merge_request_id + " "@ + upper_status
}

/// Words the title of a notification, given the status in upper case.
pub fn alert_title(merge_request_id: &str, upper_status: &str) -> (title: String)
    ensures
        title@ == alert_title_text(merge_request_id@, upper_status@),
{
    "MR !".to_string().concat(merge_request_id).concat(" ").concat(upper_status)
}

/// What a notification says beside its title.
pub open spec fn alert_body_text(agent_prompted: bool) -> Seq<char> {
    if agent_prompted {
        "Agent prompted"@
    } else {
        "Pane changed"@
    }
}

/// How far notifying has come.
#[derive(Debug, PartialEq, Eq)]
pub enum Alert {
    /// The notification is to be shown.
    Showing { pane: String, title: String, body: String },
    /// The pane is to be brought to the front.
    Focusing { pane: String },
    /// Notifying is over.
    Finished { outcome: Result<(), AlertError> },
}

/// The same with texts as character sequences.
pub enum AlertView {
    Showing { pane: Seq<char>, title: Seq<char>, body: Seq<char> },
    Focusing { pane: Seq<char> },
    Finished { outcome: Result<(), AlertErrorView> },
}

impl View for Alert {
    type V = AlertView;

    open spec fn view(&self) -> AlertView {
        match self {
            Alert::Showing { pane, title, body } => AlertView::Showing {
                pane: pane@,
                title: title@,
                body: body@,
            },
            Alert::Focusing { pane } => AlertView::Focusing { pane: pane@ },
            Alert::Finished { outcome } => AlertView::Finished {
                outcome: match outcome {
                    Ok(()) => Ok(()),
                    Err(error) => Err(error@),
                },
            },
        }
    }
}

/// What is to be done next for a notification.
#[derive(Debug, PartialEq, Eq)]
pub enum AlertAction {
    /// Run the notifier, which returns once the notification is gone.
    Show { invocation: Invocation },
    /// Bring the pane to the front.
    Focus { pane: String },
    /// Nothing is left to be done.
    Stop,
}

/// The same with texts as character sequences.
pub enum AlertActionView {
    Show { invocation: InvocationView },
    Focus { pane: Seq<char> },
    Stop,
}

impl View for AlertAction {
    type V = AlertActionView;

    open spec fn view(&self) -> AlertActionView {
        match self {
            AlertAction::Show { invocation } => AlertActionView::Show { invocation: invocation@ },
            AlertAction::Focus { pane } => AlertActionView::Focus { pane: pane@ },
            AlertAction::Stop => AlertActionView::Stop,
        }
    }
}

/// What came of an action.
#[derive(Debug, PartialEq, Eq)]
pub enum AlertEvent {
    /// The notifier ran.
    Shown { output: Output },
    /// There is no notifier.
    NotInstalled,
    /// The notifier could not be run for another reason.
    NotRun,
    /// Bringing the pane to the front came to this.
    Focused { outcome: Result<(), FocusError> },
}

/// The action that notifying waits for.
pub open spec fn alert_action(alert: AlertView) -> AlertActionView {
    match alert {
        AlertView::Showing { title, body, .. } => AlertActionView::Show {
            invocation: InvocationView {
                program: "alerter"@,
                args: seq![
                    "-title"@,
                    title,
                    "-message"@,
                    body,
                    "-actions"@,
                    "Focus"@,
                    "-timeout"@,
                    "30"@,
                ],
            },
        },
        AlertView::Focusing { pane } => AlertActionView::Focus { pane },
        AlertView::Finished { .. } => AlertActionView::Stop,
    }
}

/// Whether the user has clicked the button of a notification, which the
/// notifier reports by printing the button's label.
pub open spec fn clicked(printed: Seq<char>) -> bool {
    trimmed(printed) == "Focus"@
}

/// Says whether the user has clicked the button of a notification.
pub fn button_clicked(printed: &str) -> (yes: bool)
    ensures
        yes == clicked(printed@),
{
    printed.trim().to_string() == "Focus".to_string()
}

/// How an event moves notifying on. An event that it does not wait for changes
/// nothing.
pub open spec fn alert_next(alert: AlertView, event: AlertEvent) -> AlertView {
    match (alert, event) {
        (AlertView::Showing { pane, .. }, AlertEvent::Shown { output }) => if !output.success {
            AlertView::Finished {
                outcome: Err(AlertErrorView::Failed { stderr: lossy_text(output.stderr@) }),
            }
        } else if clicked(lossy_text(output.stdout@)) {
            AlertView::Focusing { pane }
        } else {
            AlertView::Finished { outcome: Ok(()) }
        },
        (AlertView::Showing { .. }, AlertEvent::NotInstalled) => AlertView::Finished {
            outcome: Err(AlertErrorView::NotInstalled),
        },
        (AlertView::Showing { .. }, AlertEvent::NotRun) => AlertView::Finished {
            outcome: Err(AlertErrorView::NotRun),
        },
        (AlertView::Focusing { .. }, AlertEvent::Focused { outcome }) => AlertView::Finished {
            outcome: match outcome {
                Ok(()) => Ok(()),
                Err(error) => Err(AlertErrorView::Focus(error)),
            },
        },
        _ => alert,
    }
}

impl Alert {
    /// Begins to notify the user of how a pipeline has ended. Where there are
    /// no desktop notifications there is nothing to be done.
    pub fn new(
        supported: bool,
        tmux_pane_id: &str,
        ci_status: &str,
        merge_request_id: &str,
        agent_prompted: bool,
    ) -> (alert: Alert)
        ensures
            !supported ==> alert@ == (AlertView::Finished { outcome: Ok(()) }),
            supported ==> alert@ == (AlertView::Showing {
                pane: tmux_pane_id@,
                title: alert_title_text(merge_request_id@, upper_case(ci_status@)),
                body: alert_body_text(agent_prompted),
            }),
    {
        if !supported {
            return Alert::Finished { outcome: Ok(()) };
        }
        let upper = to_uppercase(ci_status);
        let body = if agent_prompted {
            "Agent prompted".to_string()
        } else {
            "Pane changed".to_string()
        };
        Alert::Showing {
            pane: tmux_pane_id.to_string(),
            title: alert_title(merge_request_id, upper.as_str()),
            body,
        }
    }

    /// What is to be done next.
    pub fn action(&self) -> (action: AlertAction)
        ensures
            action@ == alert_action(self@),
    {
        match self {
            Alert::Showing { title, body, .. } => {
                let invocation = Invocation::new(
                    "alerter",
                    &[
                        "-title",
                        title.as_str(),
                        "-message",
                        body.as_str(),
                        "-actions",
                        "Focus",
                        "-timeout",
                        "30",
                    ],
                );
                assert(invocation@.args =~= seq![
                    "-title"@,
                    title@,
                    "-message"@,
                    body@,
                    "-actions"@,
                    "Focus"@,
                    "-timeout"@,
                    "30"@,
                ]);
                AlertAction::Show { invocation }
            },
            Alert::Focusing { pane } => AlertAction::Focus { pane: pane.clone() },
            Alert::Finished { .. } => AlertAction::Stop,
        }
    }

    /// Moves notifying on by what came of the action.
    pub fn advance(self, event: AlertEvent) -> (next: Alert)
        ensures
            next@ == alert_next(self@, event),
    {
        match (self, event) {
            (Alert::Showing { pane, .. }, AlertEvent::Shown { output }) => {
                if !output.success {
                    let stderr = from_utf8_lossy(output.stderr.as_slice());
                    return Alert::Finished { outcome: Err(AlertError::Failed { stderr }) };
                }
                let printed = from_utf8_lossy(output.stdout.as_slice());
                if button_clicked(printed.as_str()) {
                    Alert::Focusing { pane }
                } else {
                    Alert::Finished { outcome: Ok(()) }
                }
            },
            (Alert::Showing { .. }, AlertEvent::NotInstalled) => Alert::Finished {
                outcome: Err(AlertError::NotInstalled),
            },
            (Alert::Showing { .. }, AlertEvent::NotRun) => Alert::Finished {
                outcome: Err(AlertError::NotRun),
            },
            (Alert::Focusing { .. }, AlertEvent::Focused { outcome }) => Alert::Finished {
                outcome: match outcome {
                    Ok(()) => Ok(()),
                    Err(error) => Err(AlertError::Focus(error)),
                },
            },
            (alert, _) => alert,
        }
    }
}

} // verus!
