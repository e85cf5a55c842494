use ci_monitor::notify::{Notices, NotifyMode};
use ci_monitor::poll::{completed_status, final_status, PollAction, PollEvent, PollTask};
use ci_monitor::protocol::PipelineKey;
use ci_monitor::registry::Registry;
use ci_monitor::text::same_trimmed;

fn key() -> PipelineKey {
    PipelineKey { project_id: "p".to_string(), merge_request_id: "12".to_string() }
}

fn captured(content: &str) -> PollEvent {
    PollEvent::Captured { content: content.to_string() }
}

fn fetched(status: &str) -> PollEvent {
    PollEvent::Fetched { status: Some(status.to_string()) }
}

fn polling(mode: NotifyMode, before: &str) -> PollTask {
    let task = PollTask::new(key(), "%1".to_string(), mode);
    assert_eq!(task.action(), PollAction::Sleep { secs: 15 });
    let task = task.advance(PollEvent::Slept);
    assert_eq!(task.action(), PollAction::CapturePane { pane: "%1".to_string() });
    let task = task.advance(captured(before));
    assert_eq!(task.action(), PollAction::StartTimeout { secs: 3600 });
    let task = task.advance(PollEvent::TimeoutStarted);
    assert_eq!(task.action(), PollAction::FetchStatus { key: key() });
    task
}

fn prompt(status: &str) -> PollAction {
    PollAction::SendPrompt {
        pane: "%1".to_string(),
        status: status.to_string(),
        merge_request_id: "12".to_string(),
    }
}

fn alert(status: &str, agent_prompted: bool) -> PollAction {
    PollAction::SendAlert {
        pane: "%1".to_string(),
        status: status.to_string(),
        merge_request_id: "12".to_string(),
        agent_prompted,
    }
}

fn sent_after(mode: NotifyMode, now: &str) -> Vec<PollAction> {
    let mut task = polling(mode, "$ wait\n").advance(fetched("success")).advance(captured(now));
    let mut actions = Vec::new();
    loop {
        let action = task.action();
        task = match action {
            PollAction::SendPrompt { .. } => task.advance(PollEvent::Prompted),
            PollAction::SendAlert { .. } => task.advance(PollEvent::Alerted),
            PollAction::Deregister { .. } => task.advance(PollEvent::Deregistered),
            _ => {
                assert_eq!(action, PollAction::Stop);
                return actions;
            }
        };
        actions.push(action);
    }
}

#[test]
fn completion_states_are_reported_in_upper_case() {
    assert_eq!(completed_status(&"success".to_string()), Some("SUCCESS".to_string()));
    assert_eq!(completed_status(&"failed".to_string()), Some("FAILED".to_string()));
    assert_eq!(completed_status(&"canceled".to_string()), Some("CANCELED".to_string()));
    assert_eq!(completed_status(&"skipped".to_string()), Some("SKIPPED".to_string()));
}

#[test]
fn other_states_complete_nothing() {
    for status in ["running", "pending", "created", "manual", "Success", "success ", ""] {
        assert_eq!(completed_status(&status.to_string()), None);
    }
}

#[test]
fn final_status_of_each_way_to_end() {
    assert_eq!(final_status(Some(Some("FAILED".to_string()))), "FAILED");
    assert_eq!(final_status(Some(None)), "UNKNOWN");
    assert_eq!(final_status(None), "TIMEOUT");
}

#[test]
fn polling_goes_on_while_nothing_is_conclusive() {
    let mut task = polling(NotifyMode::Always, "x");
    for _ in 0..20 {
        for outcome in
            [fetched("running"), PollEvent::Fetched { status: None }, PollEvent::FetchFailed]
        {
            task = task.advance(outcome);
            assert_eq!(task.action(), PollAction::Sleep { secs: 30 });
            task = task.advance(PollEvent::Slept);
            assert_eq!(task.action(), PollAction::FetchStatus { key: key() });
        }
    }
}

#[test]
fn unchanged_pane_in_mode_always() {
    assert_eq!(
        sent_after(NotifyMode::Always, "$ wait"),
        vec![
            prompt("SUCCESS"),
            alert("SUCCESS", true),
            PollAction::Deregister { key: key() }
        ]
    );
}

#[test]
fn changed_pane_in_mode_always() {
    assert_eq!(
        sent_after(NotifyMode::Always, "$ make"),
        vec![alert("SUCCESS", false), PollAction::Deregister { key: key() }]
    );
}

#[test]
fn unchanged_pane_in_mode_for_changes() {
    assert_eq!(
        sent_after(NotifyMode::PaneContentsChanged, "\n$ wait "),
        vec![prompt("SUCCESS"), PollAction::Deregister { key: key() }]
    );
}

#[test]
fn changed_pane_in_mode_for_changes() {
    assert_eq!(
        sent_after(NotifyMode::PaneContentsChanged, ""),
        vec![alert("SUCCESS", false), PollAction::Deregister { key: key() }]
    );
}

#[test]
fn unchanged_pane_in_mode_never() {
    assert_eq!(
        sent_after(NotifyMode::Never, "$ wait\n"),
        vec![prompt("SUCCESS"), PollAction::Deregister { key: key() }]
    );
}

#[test]
fn changed_pane_in_mode_never() {
    assert_eq!(
        sent_after(NotifyMode::Never, "$  wait"),
        vec![PollAction::Deregister { key: key() }]
    );
}

#[test]
fn timeout_while_asking() {
    let task = polling(NotifyMode::Never, "x").advance(PollEvent::TimedOut).advance(captured("x"));
    assert_eq!(task.action(), prompt("TIMEOUT"));
}

#[test]
fn timeout_while_waiting() {
    let task = polling(NotifyMode::Never, "x")
        .advance(PollEvent::FetchFailed)
        .advance(PollEvent::TimedOut)
        .advance(captured("x"));
    assert_eq!(task.action(), prompt("TIMEOUT"));
}

#[test]
fn no_word_if_the_pane_is_gone_at_first() {
    let task = PollTask::new(key(), "%1".to_string(), NotifyMode::Always)
        .advance(PollEvent::Slept)
        .advance(PollEvent::CaptureFailed);
    assert_eq!(task.action(), PollAction::Deregister { key: key() });
    assert_eq!(task.advance(PollEvent::Deregistered).action(), PollAction::Stop);
}

#[test]
fn no_word_if_the_pane_is_gone_at_last() {
    let task = polling(NotifyMode::Always, "x")
        .advance(fetched("failed"))
        .advance(PollEvent::CaptureFailed);
    assert_eq!(task.action(), PollAction::Deregister { key: key() });
}

#[test]
fn time_cannot_run_out_before_polling_or_after() {
    let task = PollTask::new(key(), "%1".to_string(), NotifyMode::Always)
        .advance(PollEvent::TimedOut);
    assert_eq!(task.action(), PollAction::Sleep { secs: 15 });
    let task = polling(NotifyMode::Always, "x")
        .advance(fetched("skipped"))
        .advance(PollEvent::TimedOut)
        .advance(captured("y"));
    assert_eq!(task.action(), alert("SKIPPED", false));
}

#[test]
fn notices_by_mode() {
    let all = |mode| {
        (Notices::decide(mode, "a", "a"), Notices::decide(mode, "a", "b"))
    };
    assert_eq!(
        all(NotifyMode::Never),
        (Notices { prompt: true, desktop: None }, Notices { prompt: false, desktop: None })
    );
    assert_eq!(
        all(NotifyMode::PaneContentsChanged),
        (Notices { prompt: true, desktop: None }, Notices { prompt: false, desktop: Some(false) })
    );
    assert_eq!(
        all(NotifyMode::Always),
        (
            Notices { prompt: true, desktop: Some(true) },
            Notices { prompt: false, desktop: Some(false) }
        )
    );
    assert_eq!(NotifyMode::default(), NotifyMode::Always);
}

#[test]
fn white_space_at_the_ends_does_not_count() {
    assert!(same_trimmed("\t a b\u{a0}\u{2003}\n", "a b"));
    assert!(same_trimmed("\u{3000}\u{85}\u{1680}x", "x\u{2028}\u{2029}\u{202f}\u{205f}\u{b}\u{c}\r"));
    assert!(same_trimmed(" \n ", ""));
    assert!(!same_trimmed("a  b", "a b"));
    assert!(!same_trimmed("\u{200b}a", "a"));
    assert!(!same_trimmed("\u{180e}a", "a"));
    assert!(!same_trimmed("\u{feff}a", "a"));
    assert!(!same_trimmed("a", "A"));
}

#[test]
fn white_space_is_the_unicode_property() {
    let listed = |c: char| {
        matches!(
            c as u32,
            0x09..=0x0d
                | 0x20
                | 0x85
                | 0xa0
                | 0x1680
                | 0x2000..=0x200a
                | 0x2028
                | 0x2029
                | 0x202f
                | 0x205f
                | 0x3000
        )
    };
    for c in '\0'..=char::MAX {
        let text = c.to_string();
        assert_eq!(same_trimmed(&text, ""), listed(c), "{:?}", c);
    }
}

#[test]
fn reads_are_spaced_and_few() {
    let mut now: u64 = 0;
    let mut limit = u64::MAX;
    let mut reads: Vec<u64> = Vec::new();
    let mut task = PollTask::new(key(), "%1".to_string(), NotifyMode::Always);
    loop {
        let event = match task.action() {
            PollAction::Sleep { secs } if now + secs > limit => {
                now = limit;
                PollEvent::TimedOut
            }
            PollAction::Sleep { secs } => {
                now += secs;
                PollEvent::Slept
            }
            PollAction::CapturePane { .. } => captured("x"),
            PollAction::StartTimeout { secs } => {
                limit = now + secs;
                PollEvent::TimeoutStarted
            }
            PollAction::FetchStatus { .. } => {
                reads.push(now);
                fetched("running")
            }
            PollAction::SendPrompt { .. } => PollEvent::Prompted,
            PollAction::SendAlert { .. } => PollEvent::Alerted,
            PollAction::Deregister { .. } => PollEvent::Deregistered,
            PollAction::Stop => break,
        };
        task = task.advance(event);
    }
    let expected: Vec<u64> = (0..121u64).map(|n| 15 + 30 * n).collect();
    assert_eq!(reads, expected);
    assert_eq!(now, 3615);
}

#[test]
fn ended_task_is_out_of_the_table() {
    let other =
        PipelineKey { project_id: "p".to_string(), merge_request_id: "13".to_string() };
    let start = || PollTask::new(key(), "%1".to_string(), NotifyMode::Always);
    let ends = [
        start().advance(PollEvent::Slept).advance(PollEvent::CaptureFailed),
        polling(NotifyMode::Always, "x")
            .advance(PollEvent::TimedOut)
            .advance(PollEvent::CaptureFailed),
        polling(NotifyMode::Never, "x").advance(fetched("failed")).advance(captured("y")),
    ];
    for task in ends {
        let mut registry = Registry::new();
        registry.insert(&key(), 1);
        registry.insert(&other, 2);
        match task.action() {
            PollAction::Deregister { key } => assert_eq!(registry.remove(&key), Some(1)),
            action => panic!("{:?}", action),
        }
        assert_eq!(task.advance(PollEvent::Deregistered).action(), PollAction::Stop);
        assert_eq!(registry.drain(), vec![2]);
    }
}
