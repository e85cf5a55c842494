//! In what order things are done for a notification, and what stops them.

use crate::command::{Exit, InvocationView};
use crate::desktop::{
    alert_action, alert_next, clicked, focus_action, focus_next, AlertActionView, AlertEvent,
    AlertView, FocusActionView, FocusEvent, FocusView, FOCUS_DELAY_MILLIS,
};
use crate::gitlab::{
    fetch_next, head_status, is_success, FetchEvent, StatusFetchView, StatusQueryView,
};
use crate::laws::polling::is_report;
use crate::text::{ascii_upper, lossy_text, upper_case};
use crate::tmux::{prompt_command, prompt_next, PromptView};
use vstd::prelude::*;
use vstd::utf8::*;

verus! {

/// An agent is prompted by typing the message followed by the `Enter` key, and
/// then the key once more; prompting succeeds if and only if both commands do,
/// and the second is run only if the first succeeds.
pub proof fn law_prompt_is_typed_then_confirmed(
    pane: Seq<char>,
    text: Seq<char>,
    first: Exit,
    second: Exit,
)
    ensures
        ({
            let typing = PromptView::Typing { pane, text };
            let after_first = prompt_next(typing, first);
            let after_second = prompt_next(after_first, second);
            &&& prompt_command(typing) == Some(
                InvocationView {
                    program: "tmux"@,
                    args: seq!["send-keys"@, "-t"@, pane, text, "Enter"@],
                },
            )
            &&& prompt_command(after_first) == (if first == Exit::Success {
                Some(
                    InvocationView {
                        program: "tmux"@,
                        args: seq!["send-keys"@, "-t"@, pane, "Enter"@],
                    },
                )
            } else {
                None
            })
            &&& prompt_command(after_second) is None
            &&& after_second == (PromptView::Finished { outcome: Ok(()) }) <==> first
                == Exit::Success && second == Exit::Success
        }),
{
}

/// A pane is brought to the front by activating the terminal, waiting a
/// little, and switching to the pane; it succeeds if and only if both commands
/// do, and tmux is told to switch only if the terminal was activated.
pub proof fn law_focus_activates_then_switches(pane: Seq<char>, first: Exit, second: Exit)
    ensures
        ({
            let start = FocusView::Activating { pane };
            let waiting = focus_next(start, FocusEvent::Exited(first));
            let switching = focus_next(waiting, FocusEvent::Slept);
            let end = focus_next(switching, FocusEvent::Exited(second));
            &&& first == Exit::Success ==> {
                &&& focus_action(waiting) == (FocusActionView::Sleep {
                    millis: FOCUS_DELAY_MILLIS,
                })
                &&& focus_action(switching) == (FocusActionView::Run {
                    invocation: InvocationView {
                        program: "tmux"@,
                        args: seq!["switch-client"@, "-t"@, pane],
                    },
                })
            }
            &&& first != Exit::Success ==> waiting is Finished
            &&& end == (FocusView::Finished { outcome: Ok(()) }) <==> first == Exit::Success
                && second == Exit::Success
        }),
{
}

/// A notification has a button, and the pane is brought to the front if and
/// only if the notifier ran well and reports that button.
pub proof fn law_focus_only_on_request(
    pane: Seq<char>,
    title: Seq<char>,
    body: Seq<char>,
    event: AlertEvent,
)
    ensures
        ({
            let showing = AlertView::Showing { pane, title, body };
            &&& alert_action(alert_next(showing, event)) == (AlertActionView::Focus { pane })
                <==> (event matches AlertEvent::Shown { output } && output.success && clicked(
                lossy_text(output.stdout@),
            ))
            &&& alert_action(alert_next(showing, event)) is Focus ==> alert_next(showing, event)
                == (AlertView::Focusing { pane })
        }),
{
}

/// A status is had if and only if GitLab answers with success and with a
/// merge request, and then it is that of its head pipeline.
pub proof fn law_status_comes_from_head_pipeline(
    query: StatusQueryView,
    answer: FetchEvent,
    body: FetchEvent,
)
    ensures
        ({
            let asking = StatusFetchView::Asking { query };
            let end = fetch_next(fetch_next(asking, answer), body);
            &&& (end matches StatusFetchView::Finished { outcome } && outcome is Ok) <==> {
                &&& answer matches FetchEvent::Answered { code }
                &&& is_success(code)
                &&& body is MergeRequest
            }
            &&& end matches StatusFetchView::Finished { outcome: Ok(status) } ==> status
                == head_status(body->merge_request)
        }),
{
}

/// A notification shows the report of a task as it is: it is in upper case
/// already.
pub proof fn law_report_is_shown_as_it_is(status: Seq<char>)
    requires
        is_report(status),
    ensures
        upper_case(status) == status,
{
    reveal_strlit("SUCCESS");
    reveal_strlit("FAILED");
    reveal_strlit("CANCELED");
    reveal_strlit("SKIPPED");
    reveal_strlit("TIMEOUT");
    assert(is_ascii_chars(status));
    assert(ascii_upper(status) =~= status);
}

} // verus!
