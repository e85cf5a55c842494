use ci_monitor::daemon::{
    decimal_text, Daemon, DaemonAction, DaemonEvent, StartError, PID_FILE_PATH, SOCKET_PATH,
};

const SOCKET: &str = "/tmp/ci_monitor.sock";
const PID_FILE: &str = "/tmp/ci_monitor.pid";

fn binding() -> Daemon {
    Daemon::new(77)
        .advance(DaemonEvent::Token { present: true })
        .advance(DaemonEvent::Guarded)
        .advance(DaemonEvent::Attempted { ok: true })
        .advance(DaemonEvent::Probed { exists: false })
}

#[test]
fn paths() {
    assert_eq!(SOCKET_PATH, SOCKET);
    assert_eq!(PID_FILE_PATH, PID_FILE);
}

#[test]
fn numbers_in_decimal() {
    for n in [0u32, 1, 9, 10, 99, 100, 4095, 4194304, u32::MAX] {
        assert_eq!(decimal_text(n), n.to_string());
    }
}

#[test]
fn missing_token_is_refused() {
    let daemon = Daemon::new(1).advance(DaemonEvent::Token { present: false });
    assert_eq!(
        daemon.action(),
        DaemonAction::Exit {
            message: "Error: The GITLAB_TOKEN environment variable must be set.".to_string(),
            code: 1
        }
    );
}

#[test]
fn start_without_an_old_socket() {
    let daemon = Daemon::new(4711);
    assert_eq!(daemon.action(), DaemonAction::CheckToken);
    let daemon = daemon.advance(DaemonEvent::Token { present: true });
    assert_eq!(
        daemon.action(),
        DaemonAction::GuardFiles { paths: vec![PID_FILE.to_string(), SOCKET.to_string()] }
    );
    let daemon = daemon.advance(DaemonEvent::Guarded);
    assert_eq!(
        daemon.action(),
        DaemonAction::WriteFile { path: PID_FILE.to_string(), text: "4711".to_string() }
    );
    let daemon = daemon.advance(DaemonEvent::Attempted { ok: true });
    assert_eq!(daemon.action(), DaemonAction::Probe { path: SOCKET.to_string() });
    let daemon = daemon.advance(DaemonEvent::Probed { exists: false });
    assert_eq!(daemon.action(), DaemonAction::Bind { path: SOCKET.to_string() });
    let daemon = daemon.advance(DaemonEvent::Attempted { ok: true });
    assert_eq!(daemon.action(), DaemonAction::Wait);
}

#[test]
fn old_socket_is_removed() {
    let daemon = Daemon::ProbingSocket.advance(DaemonEvent::Probed { exists: true });
    assert_eq!(daemon.action(), DaemonAction::RemoveFile { path: SOCKET.to_string() });
    let daemon = daemon.advance(DaemonEvent::Attempted { ok: true });
    assert_eq!(daemon, Daemon::Binding);
}

#[test]
fn failures_to_start() {
    let fail = |daemon: Daemon| match daemon.advance(DaemonEvent::Attempted { ok: false }) {
        Daemon::Ended { failure } => failure.unwrap(),
        other => panic!("{:?}", other),
    };
    let pid = fail(Daemon::WritingPid { pid: 1 });
    assert_eq!(pid, StartError::PidFile);
    assert_eq!(pid.message(), "Could not create PID file at /tmp/ci_monitor.pid");
    let old = fail(Daemon::RemovingOldSocket);
    assert_eq!(old, StartError::OldSocket);
    assert_eq!(old.message(), "Could not remove old socket file: /tmp/ci_monitor.sock");
    let bind = fail(binding());
    assert_eq!(bind, StartError::Bind);
    assert_eq!(bind.message(), "Failed to bind to socket: /tmp/ci_monitor.sock");
}

#[test]
fn serves_until_interrupted() {
    let mut daemon = binding().advance(DaemonEvent::Attempted { ok: true });
    for _ in 0..5 {
        daemon = daemon.advance(DaemonEvent::Connected);
        assert_eq!(daemon.action(), DaemonAction::Converse);
        daemon = daemon.advance(DaemonEvent::Dispatched);
        assert_eq!(daemon.action(), DaemonAction::Wait);
    }
    let daemon = daemon.advance(DaemonEvent::Interrupted);
    assert_eq!(daemon.action(), DaemonAction::AbortAll);
    let daemon = daemon.advance(DaemonEvent::Aborted);
    assert_eq!(daemon.action(), DaemonAction::Stop { failure: None });
}
