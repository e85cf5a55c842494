//! Which programs are run with which arguments, and what is made of what they
//! print.

use crate::command::{Exit, Invocation, Output};
use crate::desktop::{
    alert_title, button_clicked, Alert, AlertAction, AlertError, AlertEvent, Focus, FocusAction,
    FocusError, FocusEvent,
};
use crate::laws::pane::{
    all_white, law_only_white_space_is_trimmed, law_text_between_white_space_is_kept,
};
use crate::text::{trimmed, uppercase, utf8_error, utf8_lossy};
use crate::tmux::{capture_command, capture_tmux_pane, CaptureError, Prompt, PromptError};
use vstd::prelude::*;
use vstd::string::*;
use vstd::utf8::*;

verus! {

/// An invocation is the program with the arguments, each as it is, in order.
pub proof fn law_invocation_keeps_its_arguments(
    program: &str,
    args: &[&str],
    invocation: Invocation,
)
    requires
        call_ensures(Invocation::new, (program, args), invocation),
    ensures
        invocation.program@ == program@,
        invocation.args@.len() == args@.len(),
        forall|i: int| 0 <= i < args@.len() ==> (#[trigger] invocation.args@[i])@ == args@[i]@,
{
    assert(invocation@.args.len() == args@.len());
    assert forall|i: int| 0 <= i < args@.len() implies (#[trigger] invocation.args@[i])@
        == args@[i]@ by {
        assert(invocation@.args[i] == invocation.args@[i]@);
        assert(invocation@.args[i] == args@.map_values(|arg: &str| arg@)[i]);
    }
}

/// Whether an invocation runs the program with these arguments.
pub open spec fn runs(invocation: Invocation, program: Seq<char>, args: Seq<Seq<char>>) -> bool {
    &&& invocation.program@ == program
    &&& invocation.args@.len() == args.len()
    &&& forall|i: int| 0 <= i < args.len() ==> (#[trigger] invocation.args@[i])@ == args[i]
}

proof fn lemma_runs(invocation: Invocation, program: Seq<char>, args: Seq<Seq<char>>)
    requires
        invocation@.program == program,
        invocation@.args == args,
    ensures
        runs(invocation, program, args),
{
    assert forall|i: int| 0 <= i < args.len() implies (#[trigger] invocation.args@[i])@
        == args[i] by {
        assert(invocation@.args[i] == args[i]);
    }
}

/// A pane is looked at by having tmux print that very pane.
pub proof fn law_capture_is_of_the_pane(pane: &str, invocation: Invocation)
    requires
        call_ensures(capture_command, (pane,), invocation),
    ensures
        runs(invocation, "tmux"@, seq!["capture-pane"@, "-p"@, "-t"@, pane@]),
{
    lemma_runs(invocation, "tmux"@, seq!["capture-pane"@, "-p"@, "-t"@, pane@]);
}

/// What is seen of a pane is all that tmux printed: encoding it gives back the
/// very bytes, however many there are. It is seen if and only if tmux succeeded
/// and printed text.
pub proof fn law_capture_is_all_that_was_printed(
    output: Output,
    content: Result<String, CaptureError>,
)
    requires
        call_ensures(capture_tmux_pane, (Some(output),), content),
    ensures
        content is Ok <==> output.success && valid_utf8(output.stdout@),
        content matches Ok(text) ==> encode_utf8(text@) == output.stdout@,
{
    if valid_utf8(output.stdout@) {
        decode_utf8_encode_utf8(output.stdout@);
    }
}

/// Two looks at a pane show the same if and only if tmux printed the same
/// bytes.
pub proof fn law_captures_are_told_apart(
    a: Output,
    b: Output,
    seen_a: String,
    seen_b: String,
)
    requires
        call_ensures(capture_tmux_pane, (Some(a),), Ok(seen_a)),
        call_ensures(capture_tmux_pane, (Some(b),), Ok(seen_b)),
    ensures
        seen_a@ == seen_b@ <==> a.stdout@ == b.stdout@,
{
    law_capture_is_all_that_was_printed(a, Ok(seen_a));
    law_capture_is_all_that_was_printed(b, Ok(seen_b));
    if a.stdout@ == b.stdout@ {
        encode_utf8_decode_utf8(seen_a@);
        encode_utf8_decode_utf8(seen_b@);
    }
}

/// A look that fails says why: tmux could not be run, or failed and complained,
/// with all of its complaint, or printed what is no text.
pub proof fn law_failed_capture_says_why(
    output: Option<Output>,
    content: Result<String, CaptureError>,
)
    requires
        call_ensures(capture_tmux_pane, (output,), content),
    ensures
        output is None <==> (content matches Err(error) && error is NotRun),
        output matches Some(o) ==> {
            &&& !o.success <==> (content matches Err(error) && error is Failed)
            &&& o.success && !valid_utf8(o.stdout@) <==> (content matches Err(error)
                && error is NotUtf8)
            &&& content matches Err(CaptureError::NotUtf8 { reason }) ==> reason@ == utf8_error(
                o.stdout@,
            )
            &&& content matches Err(CaptureError::Failed { stderr }) ==> {
                &&& valid_utf8(o.stderr@) ==> encode_utf8(stderr@) == o.stderr@
                &&& !valid_utf8(o.stderr@) ==> stderr@ == utf8_lossy(o.stderr@)
            }
        },
{
    if let Some(o) = output {
        if valid_utf8(o.stderr@) {
            decode_utf8_encode_utf8(o.stderr@);
        }
    }
}

/// What an error of looking at a pane says.
pub proof fn law_capture_error_says_what_is_wrong(error: CaptureError, text: String)
    requires
        call_ensures(CaptureError::message, (&error,), text),
    ensures
        error is NotRun ==> text@ == "Failed to execute tmux command"@,
        error matches CaptureError::Failed { stderr } ==> text@ == "tmux capture-pane failed: "@
            + stderr@,
        error matches CaptureError::NotUtf8 { reason } ==> text@ == reason@,
{
}

/// The first command of a prompt types, into the very pane, a text that names
/// the merge request and ends with the very status, whatever they are, followed
/// by the `Enter` key.
pub proof fn law_prompt_tells_merge_request_and_status(
    pane: &str,
    status: &str,
    merge_request_id: &str,
    prompt: Prompt,
    command: Option<Invocation>,
)
    requires
        call_ensures(Prompt::new, (pane, status, merge_request_id), prompt),
        call_ensures(Prompt::command, (&prompt,), command),
    ensures
        command matches Some(invocation) && {
            let text = invocation.args@[3]@;
            &&& runs(invocation, "tmux"@, seq!["send-keys"@, "-t"@, pane@, text, "Enter"@])
            &&& text == "Pipeline for MR "@ + merge_request_id@ + " finished with status: "@
                + status@
            &&& text.skip(text.len() - status@.len()) == status@
        },
{
    if let Some(invocation) = command {
        let text = "Pipeline for MR "@ + merge_request_id@ + " finished with status: "@ + status@;
        lemma_runs(invocation, "tmux"@, seq!["send-keys"@, "-t"@, pane@, text, "Enter"@]);
        assert(text.skip(text.len() - status@.len()) =~= status@);
    }
}

/// For one merge request two statuses give the same prompt only if they are the
/// same.
pub proof fn law_prompts_tell_statuses_apart(
    pane: &str,
    merge_request_id: &str,
    status_a: &str,
    status_b: &str,
    prompt_a: Prompt,
    prompt_b: Prompt,
)
    requires
        call_ensures(Prompt::new, (pane, status_a, merge_request_id), prompt_a),
        call_ensures(Prompt::new, (pane, status_b, merge_request_id), prompt_b),
    ensures
        ({
            &&& prompt_a matches Prompt::Typing { text: text_a, .. }
            &&& prompt_b matches Prompt::Typing { text: text_b, .. }
            &&& text_a@ == text_b@ <==> status_a@ == status_b@
        }),
{
    let start = "Pipeline for MR "@ + merge_request_id@ + " finished with status: "@;
    assert((start + status_a@).skip(start.len() as int) =~= status_a@);
    assert((start + status_b@).skip(start.len() as int) =~= status_b@);
}

/// What a prompt does next: it types its text into its pane, then presses
/// `Enter` in the same pane, then nothing.
pub proof fn law_prompt_commands_go_to_its_pane(prompt: Prompt, command: Option<Invocation>)
    requires
        call_ensures(Prompt::command, (&prompt,), command),
    ensures
        prompt matches Prompt::Typing { pane, text } ==> (command matches Some(invocation)
            && runs(invocation, "tmux"@, seq!["send-keys"@, "-t"@, pane@, text@, "Enter"@])),
        prompt matches Prompt::Confirming { pane } ==> (command matches Some(invocation) && runs(
            invocation,
            "tmux"@,
            seq!["send-keys"@, "-t"@, pane@, "Enter"@],
        )),
        prompt is Finished <==> command is None,
{
    match (prompt, command) {
        (Prompt::Typing { pane, text }, Some(invocation)) => {
            lemma_runs(
                invocation,
                "tmux"@,
                seq!["send-keys"@, "-t"@, pane@, text@, "Enter"@],
            );
        },
        (Prompt::Confirming { pane }, Some(invocation)) => {
            lemma_runs(invocation, "tmux"@, seq!["send-keys"@, "-t"@, pane@, "Enter"@]);
        },
        _ => {},
    }
}

/// A prompt stays with its pane, goes on only after success, and ends with what
/// went wrong.
pub proof fn law_prompt_goes_on_after_success_only(prompt: Prompt, exit: Exit, next: Prompt)
    requires
        call_ensures(Prompt::advance, (prompt, exit), next),
    ensures
        prompt matches Prompt::Typing { pane, .. } ==> (exit == Exit::Success <==> (
        next matches Prompt::Confirming { pane: p } && p@ == pane@)),
        prompt is Confirming ==> (exit == Exit::Success <==> (next matches Prompt::Finished {
            outcome,
        } && outcome is Ok)),
        !(prompt is Finished) && exit == Exit::NotRun ==> (next matches Prompt::Finished {
            outcome,
        } && outcome == Err::<(), PromptError>(PromptError::NotRun)),
        !(prompt is Finished) && exit == Exit::Failure ==> (next matches Prompt::Finished {
            outcome,
        } && outcome == Err::<(), PromptError>(PromptError::Failed)),
        prompt matches Prompt::Finished { outcome } ==> (next matches Prompt::Finished {
            outcome: o,
        } && o == outcome),
{
}

/// What an error of prompting says.
pub proof fn law_prompt_error_says_what_is_wrong(error: PromptError, text: String)
    requires
        call_ensures(PromptError::message, (&error,), text),
    ensures
        error is NotRun ==> text@ == "Failed to execute tmux send-keys"@,
        error is Failed ==> text@
            == "tmux send-keys command reported a failure. This might happen if the receiving shell exits with an error after processing the input."@,
{
}

/// The title of a notification names the merge request and then the status.
pub proof fn law_title_tells_merge_request_and_status(
    merge_request_id: &str,
    upper_status: &str,
    title: String,
)
    requires
        call_ensures(alert_title, (merge_request_id, upper_status), title),
    ensures
        title@ == "MR !"@ + merge_request_id@ + " "@ + upper_status@,
{
}

/// The command that shows a notification carries its very title and its very
/// body, and offers the button.
pub proof fn law_notification_shows_title_and_body(
    pane: String,
    title: String,
    body: String,
    action: AlertAction,
)
    requires
        call_ensures(Alert::action, (&Alert::Showing { pane, title, body },), action),
    ensures
        action matches AlertAction::Show { invocation } && runs(
            invocation,
            "alerter"@,
            seq![
                "-title"@,
                title@,
                "-message"@,
                body@,
                "-actions"@,
                "Focus"@,
                "-timeout"@,
                "30"@,
            ],
        ),
{
    if let AlertAction::Show { invocation } = action {
        lemma_runs(
            invocation,
            "alerter"@,
            seq![
                "-title"@,
                title@,
                "-message"@,
                body@,
                "-actions"@,
                "Focus"@,
                "-timeout"@,
                "30"@,
            ],
        );
    }
}

/// From the beginning of a notification to the command that shows it: the title
/// names the merge request and the status in upper case, the message says
/// whether the agent was prompted, and it is so for every one of them.
pub proof fn law_notification_tells_what_happened(
    pane: &str,
    status: &str,
    merge_request_id: &str,
    agent_prompted: bool,
    alert: Alert,
    action: AlertAction,
)
    requires
        call_ensures(Alert::new, (true, pane, status, merge_request_id, agent_prompted), alert),
        call_ensures(Alert::action, (&alert,), action),
    ensures
        alert matches Alert::Showing { pane: p, .. } && p@ == pane@,
        action matches AlertAction::Show { invocation } && {
            let title = invocation.args@[1]@;
            let start = "MR !"@ + merge_request_id@ + " "@;
            let shown = title.skip(start.len() as int);
            &&& invocation.program@ == "alerter"@
            &&& invocation.args@.len() == 8
            &&& invocation.args@[0]@ == "-title"@
            &&& title == start + shown
            &&& !is_ascii_chars(status@) ==> shown == uppercase(status@)
            &&& is_ascii_chars(status@) ==> {
                &&& shown.len() == status@.len()
                &&& forall|i: int|
                    #![trigger shown[i]]
                    0 <= i < shown.len() ==> if 'a' <= status@[i] <= 'z' {
                        shown[i] as int == status@[i] as int - 'a' as int + 'A' as int
                    } else {
                        shown[i] == status@[i]
                    }
            }
            &&& invocation.args@[2]@ == "-message"@
            &&& agent_prompted ==> invocation.args@[3]@ == "Agent prompted"@
            &&& !agent_prompted ==> invocation.args@[3]@ == "Pane changed"@
            &&& invocation.args@[4]@ == "-actions"@
            &&& invocation.args@[5]@ == "Focus"@
            &&& invocation.args@[6]@ == "-timeout"@
            &&& invocation.args@[7]@ == "30"@
        },
{
    if let Alert::Showing { pane: p, title, body } = alert {
        law_notification_shows_title_and_body(p, title, body, action);
        let start = "MR !"@ + merge_request_id@ + " "@;
        let shown = title@.skip(start.len() as int);
        assert(title@ =~= start + shown);
    }
}

/// Where there are no desktop notifications, notifying is over at once, and
/// well.
pub proof fn law_no_notification_without_a_desktop(
    pane: &str,
    status: &str,
    merge_request_id: &str,
    agent_prompted: bool,
    alert: Alert,
    action: AlertAction,
)
    requires
        call_ensures(Alert::new, (false, pane, status, merge_request_id, agent_prompted), alert),
        call_ensures(Alert::action, (&alert,), action),
    ensures
        action is Stop,
        alert matches Alert::Finished { outcome } && outcome is Ok,
{
}

/// What is printed is a click on the button if and only if it is the label of
/// the button, with white space at the ends at most.
pub proof fn law_click_is_the_label(printed: &str, yes: bool)
    requires
        call_ensures(button_clicked, (printed,), yes),
    ensures
        yes <==> exists|head: Seq<char>, tail: Seq<char>|
            all_white(head) && all_white(tail) && printed@ == #[trigger] (head + "Focus"@ + tail),
{
    reveal_strlit("Focus");
    if yes {
        let (head, tail) = law_only_white_space_is_trimmed(printed@);
        assert(printed@ == head + "Focus"@ + tail);
    }
    assert forall|head: Seq<char>, tail: Seq<char>|
        all_white(head) && all_white(tail) && printed@ == #[trigger] (head + "Focus"@ + tail)
        implies yes by {
        law_text_between_white_space_is_kept(head, "Focus"@, tail);
    }
}

/// What comes of showing a notification, by what the notifier did: a failure
/// keeps all of its complaint, a click leads to the very pane, anything else it
/// prints ends the matter well, and a notifier that cannot be run is an error.
pub proof fn law_notifier_decides(
    pane: String,
    title: String,
    body: String,
    event: AlertEvent,
    next: Alert,
    action: AlertAction,
)
    requires
        call_ensures(Alert::advance, (Alert::Showing { pane, title, body }, event), next),
        call_ensures(Alert::action, (&next,), action),
    ensures
        event matches AlertEvent::Shown { output } ==> {
            &&& !output.success ==> {
                &&& action is Stop
                &&& next matches Alert::Finished { outcome: Err(AlertError::Failed { stderr }) }
                &&& valid_utf8(output.stderr@) ==> encode_utf8(stderr@) == output.stderr@
                &&& !valid_utf8(output.stderr@) ==> stderr@ == utf8_lossy(output.stderr@)
            }
            &&& output.success && valid_utf8(output.stdout@) ==> {
                let label = trimmed(decode_utf8(output.stdout@));
                &&& label == "Focus"@ ==> (action matches AlertAction::Focus { pane: p } && p@
                    == pane@)
                &&& label != "Focus"@ ==> (next matches Alert::Finished { outcome }
                    && outcome is Ok)
            }
            &&& output.success && !valid_utf8(output.stdout@) ==> {
                let label = trimmed(utf8_lossy(output.stdout@));
                &&& label == "Focus"@ ==> (action matches AlertAction::Focus { pane: p } && p@
                    == pane@)
                &&& label != "Focus"@ ==> (next matches Alert::Finished { outcome }
                    && outcome is Ok)
            }
        },
        event is NotInstalled ==> (next matches Alert::Finished { outcome: Err(error) }
            && error is NotInstalled),
        event is NotRun ==> (next matches Alert::Finished { outcome: Err(error) }
            && error is NotRun),
        event is Focused ==> (next matches Alert::Showing { pane: p, title: t, body: b } && p@
            == pane@ && t@ == title@ && b@ == body@),
{
    if let AlertEvent::Shown { output } = event {
        if valid_utf8(output.stderr@) {
            decode_utf8_encode_utf8(output.stderr@);
        }
    }
}

/// Once the pane is asked for, how that comes out is how notifying comes out.
pub proof fn law_focus_decides(pane: String, event: AlertEvent, next: Alert, action: AlertAction)
    requires
        call_ensures(Alert::action, (&Alert::Focusing { pane },), action),
        call_ensures(Alert::advance, (Alert::Focusing { pane }, event), next),
    ensures
        action matches AlertAction::Focus { pane: p } && p@ == pane@,
        event matches AlertEvent::Focused { outcome } ==> {
            &&& next matches Alert::Finished { outcome: end }
            &&& outcome is Ok <==> end is Ok
            &&& outcome matches Err(error) ==> (end matches Err(AlertError::Focus(e)) && e
                == error)
        },
        !(event is Focused) ==> (next matches Alert::Focusing { pane: p } && p@ == pane@),
{
}

/// What is over stays as it is.
pub proof fn law_finished_notification_stays(
    outcome: Result<(), AlertError>,
    event: AlertEvent,
    next: Alert,
    action: AlertAction,
)
    requires
        call_ensures(Alert::action, (&Alert::Finished { outcome },), action),
        call_ensures(Alert::advance, (Alert::Finished { outcome }, event), next),
    ensures
        action is Stop,
        outcome is Ok ==> (next matches Alert::Finished { outcome: o } && o is Ok),
        outcome matches Err(e) ==> (next matches Alert::Finished { outcome: Err(f) } && f@ == e@),
{
}

/// What an error of notifying says.
pub proof fn law_alert_error_says_what_is_wrong(error: AlertError, text: String)
    requires
        call_ensures(AlertError::message, (&error,), text),
    ensures
        error is NotInstalled ==> text@
            == "`alerter` command not found. Please install with 'brew install alerter'."@,
        error is NotRun ==> text@ == "Failed to run alerter command"@,
        error matches AlertError::Failed { stderr } ==> text@ == "Alerter command failed: "@
            + stderr@,
        error matches AlertError::Focus(e) ==> {
            &&& e is ActivationNotRun ==> text@
                == "Failed to execute AppleScript to activate Kitty"@
            &&& e is ActivationFailed ==> text@ == "AppleScript to activate terminal failed."@
            &&& e is SwitchNotRun ==> text@ == "Failed to execute tmux to switch pane"@
            &&& e is SwitchFailed ==> text@ == "tmux switch-client command failed."@
        },
{
}

/// What an error of bringing a pane to the front says.
pub proof fn law_focus_error_says_what_is_wrong(error: FocusError, text: String)
    requires
        call_ensures(FocusError::message, (&error,), text),
    ensures
        error is ActivationNotRun ==> text@
            == "Failed to execute AppleScript to activate Kitty"@,
        error is ActivationFailed ==> text@ == "AppleScript to activate terminal failed."@,
        error is SwitchNotRun ==> text@ == "Failed to execute tmux to switch pane"@,
        error is SwitchFailed ==> text@ == "tmux switch-client command failed."@,
{
}

/// To bring a pane to the front, the terminal is activated first, and what is
/// switched to in the end is the very pane.
pub proof fn law_focus_commands(focus: Focus, action: FocusAction)
    requires
        call_ensures(Focus::action, (&focus,), action),
    ensures
        focus is Activating ==> (action matches FocusAction::Run { invocation } && runs(
            invocation,
            "osascript"@,
            seq!["-e"@, "tell application \"Kitty\" to activate"@],
        )),
        focus is Waiting ==> (action matches FocusAction::Sleep { millis } && millis == 200),
        focus matches Focus::Switching { pane } ==> (action matches FocusAction::Run { invocation }
            && runs(invocation, "tmux"@, seq!["switch-client"@, "-t"@, pane@])),
        focus matches Focus::Finished { outcome } ==> (action matches FocusAction::Stop {
            outcome: o,
        } && o == outcome),
{
    match (focus, action) {
        (Focus::Activating { .. }, FocusAction::Run { invocation }) => {
            lemma_runs(
                invocation,
                "osascript"@,
                seq!["-e"@, "tell application \"Kitty\" to activate"@],
            );
        },
        (Focus::Switching { pane }, FocusAction::Run { invocation }) => {
            lemma_runs(invocation, "tmux"@, seq!["switch-client"@, "-t"@, pane@]);
        },
        _ => {},
    }
}

/// Bringing a pane to the front begins with that pane, stays with it, goes on
/// only after success, and ends with what went wrong.
pub proof fn law_focus_stays_with_its_pane(
    pane_id: &str,
    start: Focus,
    pane: String,
    exit: Exit,
    activated: Focus,
    waited: Focus,
    switched: Focus,
)
    requires
        call_ensures(Focus::new, (pane_id,), start),
        call_ensures(
            Focus::advance,
            (Focus::Activating { pane }, FocusEvent::Exited(exit)),
            activated,
        ),
        call_ensures(Focus::advance, (Focus::Waiting { pane }, FocusEvent::Slept), waited),
        call_ensures(
            Focus::advance,
            (Focus::Switching { pane }, FocusEvent::Exited(exit)),
            switched,
        ),
    ensures
        start matches Focus::Activating { pane: p } && p@ == pane_id@,
        exit == Exit::Success ==> (activated matches Focus::Waiting { pane: p } && p@ == pane@),
        exit == Exit::NotRun ==> (activated matches Focus::Finished { outcome: Err(e) }
            && e is ActivationNotRun),
        exit == Exit::Failure ==> (activated matches Focus::Finished { outcome: Err(e) }
            && e is ActivationFailed),
        waited matches Focus::Switching { pane: p } && p@ == pane@,
        exit == Exit::Success ==> (switched matches Focus::Finished { outcome } && outcome is Ok),
        exit == Exit::NotRun ==> (switched matches Focus::Finished { outcome: Err(e) }
            && e is SwitchNotRun),
        exit == Exit::Failure ==> (switched matches Focus::Finished { outcome: Err(e) }
            && e is SwitchFailed),
{
}

/// What is not awaited changes nothing.
pub proof fn law_focus_ignores_what_it_does_not_await(
    focus: Focus,
    event: FocusEvent,
    next: Focus,
)
    requires
        call_ensures(Focus::advance, (focus, event), next),
    ensures
        event is Slept && !(focus is Waiting) ==> next@ == focus@,
        event is Exited && !(focus is Activating || focus is Switching) ==> next@ == focus@,
        focus matches Focus::Finished { outcome } ==> (next matches Focus::Finished { outcome: o }
            && o == outcome),
{
}

} // verus!
