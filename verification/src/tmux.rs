//! Looking at a tmux pane, and typing into it.

use crate::command::{Exit, Invocation, InvocationView, Output};
use crate::text::{from_utf8, from_utf8_lossy, lossy_text, utf8_error};
use vstd::prelude::*;
use vstd::string::*;
use vstd::utf8::*;

verus! {

/// Why a pane could not be looked at.
#[derive(Debug, PartialEq, Eq)]
pub enum CaptureError {
    /// tmux could not be run.
    NotRun,
    /// tmux failed and said this.
    Failed { stderr: String },
    /// What tmux printed is no UTF-8, for this reason.
    NotUtf8 { reason: String },
}

/// The same with texts as character sequences.
pub enum CaptureErrorView {
    NotRun,
    Failed { stderr: Seq<char> },
    NotUtf8 { reason: Seq<char> },
}

impl View for CaptureError {
    type V = CaptureErrorView;

    open spec fn view(&self) -> CaptureErrorView {
        match self {
            CaptureError::NotRun => CaptureErrorView::NotRun,
            CaptureError::Failed { stderr } => CaptureErrorView::Failed { stderr: stderr@ },
            CaptureError::NotUtf8 { reason } => CaptureErrorView::NotUtf8 { reason: reason@ },
        }
    }
}

/// How an error of looking at a pane is worded.
pub open spec fn capture_error_text(error: CaptureErrorView) -> Seq<char> {
    match error {
        CaptureErrorView::NotRun => "Failed to execute tmux command"@,
        CaptureErrorView::Failed { stderr } => "tmux capture-pane failed: "@ + stderr,
        CaptureErrorView::NotUtf8 { reason } => reason,
    }
}

impl CaptureError {
    /// The error in words.
    pub fn message(&self) -> (text: String)
        ensures
            text@ == capture_error_text(self@),
    {
        match self {
            CaptureError::NotRun => "Failed to execute tmux command".to_string(),
            CaptureError::Failed { stderr } => "tmux capture-pane failed: ".to_string().concat(
                stderr.as_str(),
            ),
            CaptureError::NotUtf8 { reason } => reason.clone(),
        }
    }
}

/// The command that prints what a pane shows.
pub fn capture_command(tmux_pane_id: &str) -> (invocation: Invocation)
    ensures
        invocation@ == (InvocationView {
            program: "tmux"@,
            args: seq!["capture-pane"@, "-p"@, "-t"@, tmux_pane_id@],
        }),
{
    let invocation = Invocation::new("tmux", &["capture-pane", "-p", "-t", tmux_pane_id]);
    assert(invocation@.args =~= seq!["capture-pane"@, "-p"@, "-t"@, tmux_pane_id@]);
    invocation
}

/// What a pane shows, from what came of the command that prints it; nothing if
/// the command could not be run.
pub open spec fn captured(output: Option<Output>) -> Result<Seq<char>, CaptureErrorView> {
    match output {
        None => Err(CaptureErrorView::NotRun),
        Some(o) => if !o.success {
            Err(CaptureErrorView::Failed { stderr: lossy_text(o.stderr@) })
        } else if valid_utf8(o.stdout@) {
            Ok(decode_utf8(o.stdout@))
        } else {
            Err(CaptureErrorView::NotUtf8 { reason: utf8_error(o.stdout@) })
        },
    }
}

/// Reads what a pane shows from what came of the command that prints it.
pub fn capture_tmux_pane(output: Option<Output>) -> (content: Result<String, CaptureError>)
    ensures
        (match content {
            Ok(text) => Ok(text@),
            Err(error) => Err(error@),
        }) == captured(output),
{
    match output {
        None => Err(CaptureError::NotRun),
        Some(o) => {
            if !o.success {
                return Err(CaptureError::Failed { stderr: from_utf8_lossy(o.stderr.as_slice()) });
            }
            match from_utf8(o.stdout) {
                Ok(text) => Ok(text),
                Err(reason) => Err(CaptureError::NotUtf8 { reason }),
            }
        },
    }
}

/// What is typed into a pane whose pipeline is done.
pub open spec fn prompt_text(merge_request_id: Seq<char>, ci_status: Seq<char>) -> Seq<char> {
    "Pipeline for MR "@ + merge_request_id + " finished with status: "@ + ci_status
}

/// How far prompting has come: the text goes out with an `Enter` key, and then
/// an `Enter` key by itself.
#[derive(Debug, PartialEq, Eq)]
pub enum Prompt {
    /// The text is to be typed.
    Typing { pane: String, text: String },
    /// The key is to be pressed.
    Confirming { pane: String },
    /// Prompting is over.
    Finished { outcome: Result<(), PromptError> },
}

/// The same with texts as character sequences.
pub enum PromptView {
    Typing { pane: Seq<char>, text: Seq<char> },
    Confirming { pane: Seq<char> },
    Finished { outcome: Result<(), PromptError> },
}

impl View for Prompt {
    type V = PromptView;

    open spec fn view(&self) -> PromptView {
        match self {
            Prompt::Typing { pane, text } => PromptView::Typing { pane: pane@, text: text@ },
            Prompt::Confirming { pane } => PromptView::Confirming { pane: pane@ },
            Prompt::Finished { outcome } => PromptView::Finished { outcome: *outcome },
        }
    }
}

/// Why an agent could not be prompted.
#[derive(Copy, Clone, Debug, PartialEq, Eq, Structural)]
pub enum PromptError {
    /// tmux could not be run.
    NotRun,
    /// tmux failed.
    Failed,
}

/// How an error of prompting is worded.
pub open spec fn prompt_error_text(error: PromptError) -> Seq<char> {
    match error {
        PromptError::NotRun => "Failed to execute tmux send-keys"@,
        PromptError::Failed => "tmux send-keys command reported a failure. This might happen if the receiving shell exits with an error after processing the input."@,
    }
}

impl PromptError {
    /// The error in words.
    pub fn message(&self) -> (text: String)
        ensures
            text@ == prompt_error_text(*self),
    {
        match self {
            PromptError::NotRun => "Failed to execute tmux send-keys".to_string(),
            PromptError::Failed => "tmux send-keys command reported a failure. This might happen if the receiving shell exits with an error after processing the input.".to_string(),
        }
    }
}

/// The command that prompting waits for, if any.
pub open spec fn prompt_command(prompt: PromptView) -> Option<InvocationView> {
    match prompt {
        PromptView::Typing { pane, text } => Some(
            InvocationView {
                program: "tmux"@,
                args: seq!["send-keys"@, "-t"@, pane, text, "Enter"@],
            },
        ),
        PromptView::Confirming { pane } => Some(
            InvocationView { program: "tmux"@, args: seq!["send-keys"@, "-t"@, pane, "Enter"@] },
        ),
        PromptView::Finished { .. } => None,
    }
}

/// How the exit of the command moves prompting on: only success leads to the
/// next command.
pub open spec fn prompt_next(prompt: PromptView, exit: Exit) -> PromptView {
    match (prompt, exit) {
        (PromptView::Finished { .. }, _) => prompt,
        (_, Exit::NotRun) => PromptView::Finished { outcome: Err(PromptError::NotRun) },
        (_, Exit::Failure) => PromptView::Finished { outcome: Err(PromptError::Failed) },
        (PromptView::Typing { pane, .. }, Exit::Success) => PromptView::Confirming { pane },
        (PromptView::Confirming { .. }, Exit::Success) => PromptView::Finished { outcome: Ok(()) },
    }
}

impl Prompt {
    /// Begins to tell the agent in a pane how a pipeline has ended.
    pub fn new(tmux_pane_id: &str, ci_status: &str, merge_request_id: &str) -> (prompt: Prompt)
        ensures
            prompt@ == (PromptView::Typing {
                pane: tmux_pane_id@,
                text: prompt_text(merge_request_id@, ci_status@),
            }),
    {
        Prompt::Typing {
            pane: tmux_pane_id.to_string(),
            text: "Pipeline for MR ".to_string().concat(merge_request_id).concat(
                " finished with status: ",
            ).concat(ci_status),
        }
    }

    /// The command that is to be run next; none when prompting is over.
    pub fn command(&self) -> (invocation: Option<Invocation>)
        ensures
            (match invocation {
                Some(i) => Some(i@),
                None => None,
            }) == prompt_command(self@),
    {
        match self {
            Prompt::Typing { pane, text } => {
                let invocation = Invocation::new(
                    "tmux",
                    &["send-keys", "-t", pane.as_str(), text.as_str(), "Enter"],
                );
                assert(invocation@.args =~= seq!["send-keys"@, "-t"@, pane@, text@, "Enter"@]);
                Some(invocation)
            },
            Prompt::Confirming { pane } => {
                let invocation = Invocation::new(
                    "tmux",
                    &["send-keys", "-t", pane.as_str(), "Enter"],
                );
                assert(invocation@.args =~= seq!["send-keys"@, "-t"@, pane@, "Enter"@]);
                Some(invocation)
            },
            Prompt::Finished { .. } => None,
        }
    }

    /// Moves prompting on by the exit of the command.
    pub fn advance(self, exit: Exit) -> (next: Prompt)
        ensures
            next@ == prompt_next(self@, exit),
    {
        match (self, exit) {
            (Prompt::Finished { outcome }, _) => Prompt::Finished { outcome },
            (_, Exit::NotRun) => Prompt::Finished { outcome: Err(PromptError::NotRun) },
            (_, Exit::Failure) => Prompt::Finished { outcome: Err(PromptError::Failed) },
            (Prompt::Typing { pane, .. }, Exit::Success) => Prompt::Confirming { pane },
            (Prompt::Confirming { .. }, Exit::Success) => Prompt::Finished { outcome: Ok(()) },
        }
    }
}

} // verus!
