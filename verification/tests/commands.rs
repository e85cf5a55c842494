use ci_monitor::command::{Exit, Invocation, Output};
use ci_monitor::desktop::{
    alert_title, button_clicked, Alert, AlertAction, AlertError, AlertEvent, Focus, FocusAction,
    FocusError, FocusEvent,
};
use ci_monitor::tmux::{
    capture_command, capture_tmux_pane, CaptureError, Prompt, PromptError,
};

fn invocation(program: &str, args: &[&str]) -> Invocation {
    Invocation {
        program: program.to_string(),
        args: args.iter().map(|arg| arg.to_string()).collect(),
    }
}

fn output(success: bool, stdout: &[u8], stderr: &[u8]) -> Output {
    Output { success, stdout: stdout.to_vec(), stderr: stderr.to_vec() }
}

#[test]
fn invocation_keeps_order() {
    assert_eq!(Invocation::new("a", &["b", "", "c"]), invocation("a", &["b", "", "c"]));
    assert_eq!(Invocation::new("a", &[]), invocation("a", &[]));
}

#[test]
fn pane_is_captured_by_tmux() {
    assert_eq!(capture_command("%5"), invocation("tmux", &["capture-pane", "-p", "-t", "%5"]));
}

#[test]
fn captured_text_is_decoded() {
    assert_eq!(
        capture_tmux_pane(Some(output(true, "ü\n".as_bytes(), b"ignored"))),
        Ok("ü\n".to_string())
    );
}

#[test]
fn capture_that_cannot_be_run() {
    let error = capture_tmux_pane(None).unwrap_err();
    assert_eq!(error, CaptureError::NotRun);
    assert_eq!(error.message(), "Failed to execute tmux command");
}

#[test]
fn capture_that_fails() {
    let error = capture_tmux_pane(Some(output(false, b"x", b"no \xff pane"))).unwrap_err();
    assert_eq!(error, CaptureError::Failed { stderr: "no \u{fffd} pane".to_string() });
    assert_eq!(error.message(), "tmux capture-pane failed: no \u{fffd} pane");
}

#[test]
fn capture_that_is_no_text() {
    let error = capture_tmux_pane(Some(output(true, b"a\xff", b""))).unwrap_err();
    let reason = String::from_utf8(b"a\xff".to_vec()).unwrap_err().to_string();
    assert_eq!(error, CaptureError::NotUtf8 { reason: reason.clone() });
    assert_eq!(error.message(), reason);
}

#[test]
fn prompt_is_typed_then_confirmed() {
    let prompt = Prompt::new("%5", "FAILED", "31");
    assert_eq!(
        prompt.command(),
        Some(invocation(
            "tmux",
            &["send-keys", "-t", "%5", "Pipeline for MR 31 finished with status: FAILED", "Enter"]
        ))
    );
    let prompt = prompt.advance(Exit::Success);
    assert_eq!(prompt.command(), Some(invocation("tmux", &["send-keys", "-t", "%5", "Enter"])));
    let prompt = prompt.advance(Exit::Success);
    assert_eq!(prompt.command(), None);
    assert_eq!(prompt, Prompt::Finished { outcome: Ok(()) });
}

#[test]
fn prompt_stops_at_the_first_failure() {
    let new = || Prompt::new("%5", "FAILED", "31");
    let failed = Prompt::Finished { outcome: Err(PromptError::Failed) };
    let not_run = Prompt::Finished { outcome: Err(PromptError::NotRun) };
    assert_eq!(new().advance(Exit::Failure), failed);
    assert_eq!(new().advance(Exit::NotRun), not_run);
    assert_eq!(new().advance(Exit::Success).advance(Exit::Failure), failed);
    assert_eq!(new().advance(Exit::Success).advance(Exit::NotRun), not_run);
    assert_eq!(new().advance(Exit::Failure).advance(Exit::Success), failed);
}

#[test]
fn prompt_errors_in_words() {
    assert_eq!(PromptError::NotRun.message(), "Failed to execute tmux send-keys");
    assert_eq!(
        PromptError::Failed.message(),
        "tmux send-keys command reported a failure. This might happen if the receiving shell exits with an error after processing the input."
    );
}

#[test]
fn focus_activates_waits_and_switches() {
    let focus = Focus::new("%7");
    assert_eq!(
        focus.action(),
        FocusAction::Run {
            invocation: invocation(
                "osascript",
                &["-e", "tell application \"Kitty\" to activate"]
            )
        }
    );
    let focus = focus.advance(FocusEvent::Exited(Exit::Success));
    assert_eq!(focus.action(), FocusAction::Sleep { millis: 200 });
    let focus = focus.advance(FocusEvent::Slept);
    assert_eq!(
        focus.action(),
        FocusAction::Run { invocation: invocation("tmux", &["switch-client", "-t", "%7"]) }
    );
    let focus = focus.advance(FocusEvent::Exited(Exit::Success));
    assert_eq!(focus.action(), FocusAction::Stop { outcome: Ok(()) });
}

#[test]
fn focus_stops_at_the_first_failure() {
    let end = |focus: Focus| match focus.action() {
        FocusAction::Stop { outcome } => outcome.unwrap_err(),
        other => panic!("{:?}", other),
    };
    let switching = || {
        Focus::new("%7").advance(FocusEvent::Exited(Exit::Success)).advance(FocusEvent::Slept)
    };
    assert_eq!(
        end(Focus::new("%7").advance(FocusEvent::Exited(Exit::NotRun))),
        FocusError::ActivationNotRun
    );
    assert_eq!(
        end(Focus::new("%7").advance(FocusEvent::Exited(Exit::Failure))),
        FocusError::ActivationFailed
    );
    assert_eq!(
        end(switching().advance(FocusEvent::Exited(Exit::NotRun))),
        FocusError::SwitchNotRun
    );
    assert_eq!(
        end(switching().advance(FocusEvent::Exited(Exit::Failure))),
        FocusError::SwitchFailed
    );
}

#[test]
fn focus_errors_in_words() {
    assert_eq!(
        FocusError::ActivationNotRun.message(),
        "Failed to execute AppleScript to activate Kitty"
    );
    assert_eq!(
        FocusError::ActivationFailed.message(),
        "AppleScript to activate terminal failed."
    );
    assert_eq!(FocusError::SwitchNotRun.message(), "Failed to execute tmux to switch pane");
    assert_eq!(FocusError::SwitchFailed.message(), "tmux switch-client command failed.");
}

#[test]
fn alert_shows_title_body_and_button() {
    let alert = Alert::new(true, "%1", "success", "12", true);
    assert_eq!(
        alert.action(),
        AlertAction::Show {
            invocation: invocation(
                "alerter",
                &[
                    "-title",
                    "MR !12 SUCCESS",
                    "-message",
                    "Agent prompted",
                    "-actions",
                    "Focus",
                    "-timeout",
                    "30"
                ]
            )
        }
    );
    let alert = Alert::new(true, "%1", "straße", "12", false);
    assert_eq!(
        alert,
        Alert::Showing {
            pane: "%1".to_string(),
            title: "MR !12 STRASSE".to_string(),
            body: "Pane changed".to_string()
        }
    );
}

#[test]
fn alert_without_desktop_is_over_at_once() {
    let alert = Alert::new(false, "%1", "SUCCESS", "12", true);
    assert_eq!(alert.action(), AlertAction::Stop);
    assert_eq!(alert, Alert::Finished { outcome: Ok(()) });
}

#[test]
fn click_brings_the_pane_to_the_front() {
    let showing = || Alert::new(true, "%1", "SUCCESS", "12", true);
    let clicked = showing()
        .advance(AlertEvent::Shown { output: output(true, b" Focus\n", b"") });
    assert_eq!(clicked.action(), AlertAction::Focus { pane: "%1".to_string() });
    assert_eq!(
        clicked.advance(AlertEvent::Focused { outcome: Ok(()) }),
        Alert::Finished { outcome: Ok(()) }
    );
    let closed = showing()
        .advance(AlertEvent::Shown { output: output(true, b"@TIMEOUT", b"") });
    assert_eq!(closed, Alert::Finished { outcome: Ok(()) });
}

#[test]
fn alert_errors_in_words() {
    let end = |alert: Alert| match alert {
        Alert::Finished { outcome } => outcome.unwrap_err(),
        other => panic!("{:?}", other),
    };
    let showing = || Alert::new(true, "%1", "SUCCESS", "12", true);
    let failed =
        end(showing().advance(AlertEvent::Shown { output: output(false, b"Focus", b"oh\xff") }));
    assert_eq!(failed, AlertError::Failed { stderr: "oh\u{fffd}".to_string() });
    assert_eq!(failed.message(), "Alerter command failed: oh\u{fffd}");
    let missing = end(showing().advance(AlertEvent::NotInstalled));
    assert_eq!(
        missing.message(),
        "`alerter` command not found. Please install with 'brew install alerter'."
    );
    let not_run = end(showing().advance(AlertEvent::NotRun));
    assert_eq!(not_run.message(), "Failed to run alerter command");
    let unfocused = end(showing()
        .advance(AlertEvent::Shown { output: output(true, b"Focus", b"") })
        .advance(AlertEvent::Focused { outcome: Err(FocusError::SwitchFailed) }));
    assert_eq!(unfocused, AlertError::Focus(FocusError::SwitchFailed));
    assert_eq!(unfocused.message(), "tmux switch-client command failed.");
}

#[test]
fn button_and_title_texts() {
    assert!(button_clicked("Focus"));
    assert!(button_clicked("\tFocus \n"));
    assert!(!button_clicked("focus"));
    assert!(!button_clicked("Focus!"));
    assert!(!button_clicked(""));
    assert_eq!(alert_title("7", "FAILED"), "MR !7 FAILED");
}

#[test]
fn report_is_shown_as_it_is() {
    for status in ["SUCCESS", "FAILED", "CANCELED", "SKIPPED", "TIMEOUT"] {
        match Alert::new(true, "%1", status, "9", false) {
            Alert::Showing { title, .. } => assert_eq!(title, format!("MR !9 {}", status)),
            other => panic!("{:?}", other),
        }
    }
}
