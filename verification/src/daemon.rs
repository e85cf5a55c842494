//! The life of the daemon: start, serve, stop.

use vstd::prelude::*;
use vstd::string::*;

verus! {

/// Where clients connect.
pub const SOCKET_PATH: &'static str = "/tmp/ci_monitor.sock";

/// Where the daemon leaves its process number.
pub const PID_FILE_PATH: &'static str = "/tmp/ci_monitor.pid";

/// A decimal digit.
pub open spec fn digit(n: nat) -> char {
    ('0' as nat + n) as char
}

/// A number in decimal notation.
pub open spec fn decimal(n: nat) -> Seq<char>
    decreases n,
{
    if n < 10 {
        seq![digit(n)]
    } else {
        decimal(n / 10).push(digit(n % 10))
    }
}

/// Writes a digit.
fn digit_text(n: u32) -> (text: &'static str)
    requires
        n < 10,
    ensures
        text@ == seq![digit(n as nat)],
{
    proof {
        reveal_strlit("0");
        reveal_strlit("1");
        reveal_strlit("2");
        reveal_strlit("3");
        reveal_strlit("4");
        reveal_strlit("5");
        reveal_strlit("6");
        reveal_strlit("7");
        reveal_strlit("8");
        reveal_strlit("9");
    }
    let text = match n {
        0 => "0",
        1 => "1",
        2 => "2",
        3 => "3",
        4 => "4",
        5 => "5",
        6 => "6",
        7 => "7",
        8 => "8",
        _ => "9",
    };
    assert(text@ =~= seq![digit(n as nat)]);
    text
}

/// Writes a number in decimal notation.
pub fn decimal_text(n: u32) -> (text: String)
    ensures
        text@ == decimal(n as nat),
    decreases n,
{
    if n < 10 {
        digit_text(n).to_string()
    } else {
        let text = decimal_text(n / 10).concat(digit_text(n % 10));
        assert(text@ =~= decimal(n as nat));
        text
    }
}

/// Why the daemon could not start.
#[derive(Copy, Clone, Debug, PartialEq, Eq, Structural)]
pub enum StartError {
    /// The process number could not be written.
    PidFile,
    /// An old socket could not be removed.
    OldSocket,
    /// The socket could not be opened.
    Bind,
}

/// How an error of starting is worded.
pub open spec fn start_error_text(error: StartError) -> Seq<char> {
    match error {
        StartError::PidFile => "Could not create PID file at "@ + PID_FILE_PATH@,
        StartError::OldSocket => "Could not remove old socket file: "@ + SOCKET_PATH@,
        StartError::Bind => "Failed to bind to socket: "@ + SOCKET_PATH@,
    }
}

impl StartError {
    /// The error in words.
    pub fn message(&self) -> (text: String)
        ensures
            text@ == start_error_text(*self),
    {
        match self {
            StartError::PidFile => "Could not create PID file at ".to_string().concat(
                PID_FILE_PATH,
            ),
            StartError::OldSocket => "Could not remove old socket file: ".to_string().concat(
                SOCKET_PATH,
            ),
            StartError::Bind => "Failed to bind to socket: ".to_string().concat(SOCKET_PATH),
        }
    }
}

/// How far the daemon has come.
#[derive(Copy, Clone, Debug, PartialEq, Eq, Structural)]
pub enum Daemon {
    /// The token is to be looked for.
    CheckingToken { pid: u32 },
    /// There is no token.
    Refused,
    /// From here on the daemon's files are removed when it ends.
    GuardingFiles { pid: u32 },
    /// The process number is to be written.
    WritingPid { pid: u32 },
    /// An old socket is to be looked for.
    ProbingSocket,
    /// The old socket is to be removed.
    RemovingOldSocket,
    /// The socket is to be opened.
    Binding,
    /// Clients are awaited.
    Serving,
    /// A client has come.
    Dispatching,
    /// The tasks that are left are to be aborted.
    Stopping,
    /// The daemon is over.
    Ended { failure: Option<StartError> },
}

/// What is to be done next for the daemon.
#[derive(Debug, PartialEq, Eq)]
pub enum DaemonAction {
    /// See whether there is a token.
    CheckToken,
    /// Print the message and exit with the code.
    Exit { message: String, code: i32 },
    /// Have the files removed when the daemon ends, in this order.
    GuardFiles { paths: Vec<String> },
    /// Write the text to the file.
    WriteFile { path: String, text: String },
    /// See whether the file exists.
    Probe { path: String },
    /// Remove the file.
    RemoveFile { path: String },
    /// Open the socket.
    Bind { path: String },
    /// Wait for a client or for the word to stop.
    Wait,
    /// Talk to the client, while waiting for others.
    Converse,
    /// Abort all tasks and empty the registry.
    AbortAll,
    /// Nothing is left to be done.
    Stop { failure: Option<StartError> },
}

/// The same with texts as character sequences.
pub enum DaemonActionView {
    CheckToken,
    Exit { message: Seq<char>, code: i32 },
    GuardFiles { paths: Seq<Seq<char>> },
    WriteFile { path: Seq<char>, text: Seq<char> },
    Probe { path: Seq<char> },
    RemoveFile { path: Seq<char> },
    Bind { path: Seq<char> },
    Wait,
    Converse,
    AbortAll,
    Stop { failure: Option<StartError> },
}

impl View for DaemonAction {
    type V = DaemonActionView;

    open spec fn view(&self) -> DaemonActionView {
        match self {
            DaemonAction::CheckToken => DaemonActionView::CheckToken,
            DaemonAction::Exit { message, code } => DaemonActionView::Exit {
                message: message@,
                code: *code,
            },
            DaemonAction::GuardFiles { paths } => DaemonActionView::GuardFiles {
                paths: paths@.map_values(|path: String| path@),
            },
            DaemonAction::WriteFile { path, text } => DaemonActionView::WriteFile {
                path: path@,
                text: text@,
            },
            DaemonAction::Probe { path } => DaemonActionView::Probe { path: path@ },
            DaemonAction::RemoveFile { path } => DaemonActionView::RemoveFile { path: path@ },
            DaemonAction::Bind { path } => DaemonActionView::Bind { path: path@ },
            DaemonAction::Wait => DaemonActionView::Wait,
            DaemonAction::Converse => DaemonActionView::Converse,
            DaemonAction::AbortAll => DaemonActionView::AbortAll,
            DaemonAction::Stop { failure } => DaemonActionView::Stop { failure: *failure },
        }
    }
}

/// What came of an action.
#[derive(Copy, Clone, Debug, PartialEq, Eq, Structural)]
pub enum DaemonEvent {
    /// Whether there is a token.
    Token { present: bool },
    /// The files are guarded.
    Guarded,
    /// Whether the action went well.
    Attempted { ok: bool },
    /// Whether the file exists.
    Probed { exists: bool },
    /// A client has come.
    Connected,
    /// The client is being talked to.
    Dispatched,
    /// The daemon is told to stop.
    Interrupted,
    /// All tasks are aborted.
    Aborted,
}

/// The action that the daemon waits for.
pub open spec fn daemon_action(daemon: Daemon) -> DaemonActionView {
    match daemon {
        Daemon::CheckingToken { .. } => DaemonActionView::CheckToken,
        Daemon::Refused => DaemonActionView::Exit {
            message: "Error: The GITLAB_TOKEN environment variable must be set."@,
            code: 1,
        },
        Daemon::GuardingFiles { .. } => DaemonActionView::GuardFiles {
            paths: seq![PID_FILE_PATH@, SOCKET_PATH@],
        },
        Daemon::WritingPid { pid } => DaemonActionView::WriteFile {
            path: PID_FILE_PATH@,
            text: decimal(pid as nat),
        },
        Daemon::ProbingSocket => DaemonActionView::Probe { path: SOCKET_PATH@ },
        Daemon::RemovingOldSocket => DaemonActionView::RemoveFile { path: SOCKET_PATH@ },
        Daemon::Binding => DaemonActionView::Bind { path: SOCKET_PATH@ },
        Daemon::Serving => DaemonActionView::Wait,
        Daemon::Dispatching => DaemonActionView::Converse,
        Daemon::Stopping => DaemonActionView::AbortAll,
        Daemon::Ended { failure } => DaemonActionView::Stop { failure },
    }
}

/// How an event moves the daemon on. An event that it does not wait for
/// changes nothing.
pub open spec fn daemon_next(daemon: Daemon, event: DaemonEvent) -> Daemon {
    match (daemon, event) {
        (Daemon::CheckingToken { pid }, DaemonEvent::Token { present }) => if present {
            Daemon::GuardingFiles { pid }
        } else {
            Daemon::Refused
        },
        (Daemon::GuardingFiles { pid }, DaemonEvent::Guarded) => Daemon::WritingPid { pid },
        (Daemon::WritingPid { .. }, DaemonEvent::Attempted { ok }) => if ok {
            Daemon::ProbingSocket
        } else {
            Daemon::Ended { failure: Some(StartError::PidFile) }
        },
        (Daemon::ProbingSocket, DaemonEvent::Probed { exists }) => if exists {
            Daemon::RemovingOldSocket
        } else {
            Daemon::Binding
        },
        (Daemon::RemovingOldSocket, DaemonEvent::Attempted { ok }) => if ok {
            Daemon::Binding
        } else {
            Daemon::Ended { failure: Some(StartError::OldSocket) }
        },
        (Daemon::Binding, DaemonEvent::Attempted { ok }) => if ok {
            Daemon::Serving
        } else {
            Daemon::Ended { failure: Some(StartError::Bind) }
        },
        (Daemon::Serving, DaemonEvent::Connected) => Daemon::Dispatching,
        (Daemon::Dispatching, DaemonEvent::Dispatched) => Daemon::Serving,
        (Daemon::Serving, DaemonEvent::Interrupted) => Daemon::Stopping,
        (Daemon::Stopping, DaemonEvent::Aborted) => Daemon::Ended { failure: None },
        _ => daemon,
    }
}

impl Daemon {
    /// A daemon that is about to start, as the process with this number.
    pub fn new(pid: u32) -> (daemon: Daemon)
        ensures
            daemon == (Daemon::CheckingToken { pid }),
    {
        Daemon::CheckingToken { pid }
    }

    /// What is to be done next.
    pub fn action(&self) -> (action: DaemonAction)
        ensures
            action@ == daemon_action(*self),
    {
        match self {
            Daemon::CheckingToken { .. } => DaemonAction::CheckToken,
            Daemon::Refused => DaemonAction::Exit {
                message: "Error: The GITLAB_TOKEN environment variable must be set.".to_string(),
                code: 1,
            },
            Daemon::GuardingFiles { .. } => {
                let paths = vec![PID_FILE_PATH.to_string(), SOCKET_PATH.to_string()];
                assert(paths@.map_values(|path: String| path@) =~= seq![
                    PID_FILE_PATH@,
                    SOCKET_PATH@,
                ]);
                DaemonAction::GuardFiles { paths }
            },
            Daemon::WritingPid { pid } => DaemonAction::WriteFile {
                path: PID_FILE_PATH.to_string(),
                text: decimal_text(*pid),
            },
            Daemon::ProbingSocket => DaemonAction::Probe { path: SOCKET_PATH.to_string() },
            Daemon::RemovingOldSocket => DaemonAction::RemoveFile {
                path: SOCKET_PATH.to_string(),
            },
            Daemon::Binding => DaemonAction::Bind { path: SOCKET_PATH.to_string() },
            Daemon::Serving => DaemonAction::Wait,
            Daemon::Dispatching => DaemonAction::Converse,
            Daemon::Stopping => DaemonAction::AbortAll,
            Daemon::Ended { failure } => DaemonAction::Stop { failure: *failure },
        }
    }

    /// Moves the daemon on by what came of the action.
    pub fn advance(self, event: DaemonEvent) -> (next: Daemon)
        ensures
            next == daemon_next(self, event),
    {
        match (self, event) {
            (Daemon::CheckingToken { pid }, DaemonEvent::Token { present }) => if present {
                Daemon::GuardingFiles { pid }
            } else {
                Daemon::Refused
            },
            (Daemon::GuardingFiles { pid }, DaemonEvent::Guarded) => Daemon::WritingPid { pid },
            (Daemon::WritingPid { .. }, DaemonEvent::Attempted { ok }) => if ok {
                Daemon::ProbingSocket
            } else {
                Daemon::Ended { failure: Some(StartError::PidFile) }
            },
            (Daemon::ProbingSocket, DaemonEvent::Probed { exists }) => if exists {
                Daemon::RemovingOldSocket
            } else {
                Daemon::Binding
            },
            (Daemon::RemovingOldSocket, DaemonEvent::Attempted { ok }) => if ok {
                Daemon::Binding
            } else {
                Daemon::Ended { failure: Some(StartError::OldSocket) }
            },
            (Daemon::Binding, DaemonEvent::Attempted { ok }) => if ok {
                Daemon::Serving
            } else {
                Daemon::Ended { failure: Some(StartError::Bind) }
            },
            (Daemon::Serving, DaemonEvent::Connected) => Daemon::Dispatching,
            (Daemon::Dispatching, DaemonEvent::Dispatched) => Daemon::Serving,
            (Daemon::Serving, DaemonEvent::Interrupted) => Daemon::Stopping,
            (Daemon::Stopping, DaemonEvent::Aborted) => Daemon::Ended { failure: None },
            (daemon, _) => daemon,
        }
    }
}

} // verus!
