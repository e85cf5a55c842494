//! What the daemon does with its files, its socket and its process number.

use crate::daemon::{
    decimal, decimal_text, digit, Daemon, DaemonAction, DaemonActionView, DaemonEvent, StartError,
};
use vstd::prelude::*;
use vstd::string::*;

verus! {

/// The number that a text of decimal digits stands for.
pub open spec fn value(text: Seq<char>) -> int
    decreases text.len(),
{
    if text.len() == 0 {
        0
    } else {
        value(text.drop_last()) * 10 + (text.last() as int - '0' as int)
    }
}

proof fn lemma_decimal(n: nat)
    requires
        n <= u32::MAX,
    ensures
        decimal(n).len() > 0,
        value(decimal(n)) == n,
        forall|i: int| 0 <= i < decimal(n).len() ==> '0' <= #[trigger] decimal(n)[i] <= '9',
        decimal(n)[0] == '0' ==> n == 0,
    decreases n,
{
    if n < 10 {
        assert(decimal(n) == seq![digit(n)]);
        assert(decimal(n).drop_last() =~= seq![]);
        assert(value(seq![]) == 0);
    } else {
        lemma_decimal(n / 10);
        assert(decimal(n).drop_last() =~= decimal(n / 10));
    }
}

/// The decimal text of a number stands for that number, consists of digits, and
/// begins with a zero only if it is the number zero.
pub proof fn law_number_is_read_back(n: u32, text: String)
    requires
        call_ensures(decimal_text, (n,), text),
    ensures
        value(text@) == n,
        text@.len() > 0,
        forall|i: int| 0 <= i < text@.len() ==> '0' <= #[trigger] text@[i] <= '9',
        text@[0] == '0' ==> n == 0,
        n == 0 ==> text@ == seq!['0'],
{
    lemma_decimal(n as nat);
    if n == 0 {
        assert(text@ =~= seq!['0']);
    }
}

/// The daemon begins by looking for the token, and keeps its process number
/// until it is written.
pub proof fn law_process_number_is_kept(
    pid: u32,
    start: Daemon,
    present: bool,
    checked: Daemon,
    guarded: Daemon,
    write: DaemonAction,
)
    requires
        call_ensures(Daemon::new, (pid,), start),
        call_ensures(Daemon::advance, (start, DaemonEvent::Token { present }), checked),
        call_ensures(Daemon::advance, (checked, DaemonEvent::Guarded), guarded),
        call_ensures(Daemon::action, (&guarded,), write),
    ensures
        start == (Daemon::CheckingToken { pid }),
        !present ==> checked is Refused && guarded is Refused,
        present ==> {
            &&& checked == (Daemon::GuardingFiles { pid })
            &&& guarded == (Daemon::WritingPid { pid })
            &&& write matches DaemonAction::WriteFile { path, text }
            &&& path@ == "/tmp/ci_monitor.pid"@
            &&& value(text@) == pid
        },
{
    lemma_decimal(pid as nat);
}

/// What the daemon does where it stands: which files, which socket, which
/// words.
pub proof fn law_daemon_touches_its_own_files(daemon: Daemon, action: DaemonAction)
    requires
        call_ensures(Daemon::action, (&daemon,), action),
    ensures
        daemon is CheckingToken <==> action is CheckToken,
        daemon is Refused <==> action is Exit,
        action matches DaemonAction::Exit { message, code } ==> code == 1 && message@
            == "Error: The GITLAB_TOKEN environment variable must be set."@,
        daemon is GuardingFiles <==> action is GuardFiles,
        action matches DaemonAction::GuardFiles { paths } ==> {
            &&& paths@.len() == 2
            &&& paths@[0]@ == "/tmp/ci_monitor.pid"@
            &&& paths@[1]@ == "/tmp/ci_monitor.sock"@
        },
        daemon is WritingPid <==> action is WriteFile,
        action matches DaemonAction::WriteFile { path, text } ==> {
            &&& path@ == "/tmp/ci_monitor.pid"@
            &&& daemon matches Daemon::WritingPid { pid }
            &&& value(text@) == pid
            &&& forall|i: int| 0 <= i < text@.len() ==> '0' <= #[trigger] text@[i] <= '9'
            &&& text@[0] == '0' ==> pid == 0
        },
        daemon is ProbingSocket <==> action is Probe,
        action matches DaemonAction::Probe { path } ==> path@ == "/tmp/ci_monitor.sock"@,
        daemon is RemovingOldSocket <==> action is RemoveFile,
        action matches DaemonAction::RemoveFile { path } ==> path@ == "/tmp/ci_monitor.sock"@,
        daemon is Binding <==> action is Bind,
        action matches DaemonAction::Bind { path } ==> path@ == "/tmp/ci_monitor.sock"@,
        daemon is Serving <==> action is Wait,
        daemon is Dispatching <==> action is Converse,
        daemon is Stopping <==> action is AbortAll,
        daemon matches Daemon::Ended { failure } ==> (action matches DaemonAction::Stop {
            failure: f,
        } && f == failure),
        action is Stop ==> daemon is Ended,
{
    if let Daemon::WritingPid { pid } = daemon {
        lemma_decimal(pid as nat);
    }
    if let DaemonAction::GuardFiles { paths } = action {
        let texts = paths@.map_values(|path: String| path@);
        assert(action@ == (DaemonActionView::GuardFiles { paths: texts }));
        assert(texts.len() == 2);
        assert(texts[0] == paths@[0]@ && texts[1] == paths@[1]@);
    }
}

/// How starting goes on: only what went well leads further, what went wrong
/// ends the daemon with the error of that very step, and an old socket is
/// removed if and only if there is one.
pub proof fn law_start_stops_at_the_first_failure(
    pid: u32,
    ok: bool,
    exists: bool,
    written: Daemon,
    probed: Daemon,
    removed: Daemon,
    bound: Daemon,
)
    requires
        call_ensures(
            Daemon::advance,
            (Daemon::WritingPid { pid }, DaemonEvent::Attempted { ok }),
            written,
        ),
        call_ensures(
            Daemon::advance,
            (Daemon::ProbingSocket, DaemonEvent::Probed { exists }),
            probed,
        ),
        call_ensures(
            Daemon::advance,
            (Daemon::RemovingOldSocket, DaemonEvent::Attempted { ok }),
            removed,
        ),
        call_ensures(
            Daemon::advance,
            (Daemon::Binding, DaemonEvent::Attempted { ok }),
            bound,
        ),
    ensures
        ok ==> written is ProbingSocket && removed is Binding && bound is Serving,
        !ok ==> {
            &&& written == (Daemon::Ended { failure: Some(StartError::PidFile) })
            &&& removed == (Daemon::Ended { failure: Some(StartError::OldSocket) })
            &&& bound == (Daemon::Ended { failure: Some(StartError::Bind) })
        },
        exists ==> probed is RemovingOldSocket,
        !exists ==> probed is Binding,
{
}

/// A daemon that serves talks to every client that comes, and serves on; told
/// to stop, it aborts its tasks and ends well. Nothing else moves it.
pub proof fn law_serving_goes_on(
    event: DaemonEvent,
    serving: Daemon,
    dispatching: Daemon,
    stopping: Daemon,
)
    requires
        call_ensures(Daemon::advance, (Daemon::Serving, event), serving),
        call_ensures(Daemon::advance, (Daemon::Dispatching, event), dispatching),
        call_ensures(Daemon::advance, (Daemon::Stopping, event), stopping),
    ensures
        event is Connected <==> serving is Dispatching,
        event is Interrupted <==> serving is Stopping,
        !(event is Connected || event is Interrupted) ==> serving is Serving,
        event is Dispatched <==> dispatching is Serving,
        !(event is Dispatched) ==> dispatching is Dispatching,
        event is Aborted <==> stopping == (Daemon::Ended { failure: None }),
        !(event is Aborted) ==> stopping is Stopping,
{
}

/// What the daemon does not await changes nothing, and what is over stays so.
pub proof fn law_daemon_ignores_what_it_does_not_await(
    daemon: Daemon,
    event: DaemonEvent,
    next: Daemon,
)
    requires
        call_ensures(Daemon::advance, (daemon, event), next),
    ensures
        daemon is CheckingToken && !(event is Token) ==> next == daemon,
        daemon is GuardingFiles && !(event is Guarded) ==> next == daemon,
        daemon is WritingPid && !(event is Attempted) ==> next == daemon,
        daemon is ProbingSocket && !(event is Probed) ==> next == daemon,
        daemon is RemovingOldSocket && !(event is Attempted) ==> next == daemon,
        daemon is Binding && !(event is Attempted) ==> next == daemon,
        daemon is Refused || daemon is Ended ==> next == daemon,
{
}

/// What an error of starting says.
pub proof fn law_start_error_says_what_is_wrong(error: StartError, text: String)
    requires
        call_ensures(StartError::message, (&error,), text),
    ensures
        error is PidFile ==> text@ == "Could not create PID file at "@ + "/tmp/ci_monitor.pid"@,
        error is OldSocket ==> text@ == "Could not remove old socket file: "@
            + "/tmp/ci_monitor.sock"@,
        error is Bind ==> text@ == "Failed to bind to socket: "@ + "/tmp/ci_monitor.sock"@,
{
}

} // verus!
