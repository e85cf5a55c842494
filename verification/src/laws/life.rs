//! How the daemon starts and ends.

use crate::daemon::{
    daemon_action, daemon_next, decimal, Daemon, DaemonActionView, DaemonEvent, StartError,
    PID_FILE_PATH, SOCKET_PATH,
};
use vstd::prelude::*;

verus! {

/// The daemon after a sequence of events.
pub open spec fn live(daemon: Daemon, events: Seq<DaemonEvent>) -> Daemon
    decreases events.len(),
{
    if events.len() == 0 {
        daemon
    } else {
        live(daemon_next(daemon, events.first()), events.drop_first())
    }
}

/// The actions that were carried out for the daemon, in order.
pub open spec fn lived(daemon: Daemon, events: Seq<DaemonEvent>) -> Seq<DaemonActionView>
    decreases events.len(),
{
    if events.len() == 0 {
        seq![]
    } else {
        let next = daemon_next(daemon, events.first());
        if next == daemon {
            lived(next, events.drop_first())
        } else {
            seq![daemon_action(daemon)] + lived(next, events.drop_first())
        }
    }
}

/// Whether the daemon has got as far as guarding its files.
pub open spec fn past_guard(daemon: Daemon) -> bool {
    !(daemon is CheckingToken || daemon is Refused || daemon is GuardingFiles)
}

/// Without a token the daemon exits with an error and touches no file; it
/// writes its files only once they are guarded, so that they are removed
/// whatever way it ends.
pub proof fn law_files_are_guarded_first(pid: u32, events: Seq<DaemonEvent>)
    ensures
        ({
            let start = Daemon::CheckingToken { pid };
            &&& past_guard(live(start, events)) ==> lived(start, events).contains(
                DaemonActionView::GuardFiles { paths: seq![PID_FILE_PATH@, SOCKET_PATH@] },
            )
            &&& live(start, events) is Refused ==> lived(start, events) == seq![
                DaemonActionView::CheckToken,
            ]
        }),
    decreases events.len(),
{
    let start = Daemon::CheckingToken { pid };
    if events.len() > 0 {
        let next = daemon_next(start, events.first());
        let rest = events.drop_first();
        if next == start {
            law_files_are_guarded_first(pid, rest);
        } else if next is Refused {
            lemma_refused_stays(rest);
            assert(lived(start, events) =~= seq![DaemonActionView::CheckToken]);
        } else {
            lemma_from_guard(pid, rest);
            let tail = lived(next, rest);
            let guard = DaemonActionView::GuardFiles {
                paths: seq![PID_FILE_PATH@, SOCKET_PATH@],
            };
            if past_guard(live(start, events)) {
                let i = choose|i: int| 0 <= i < tail.len() && tail[i] == guard;
                assert(lived(start, events)[i + 1] == guard);
            }
        }
    }
}

proof fn lemma_refused_stays(events: Seq<DaemonEvent>)
    ensures
        live(Daemon::Refused, events) == Daemon::Refused,
        lived(Daemon::Refused, events) == Seq::<DaemonActionView>::empty(),
    decreases events.len(),
{
    if events.len() > 0 {
        lemma_refused_stays(events.drop_first());
    }
}

proof fn lemma_from_guard(pid: u32, events: Seq<DaemonEvent>)
    ensures
        ({
            let guarding = Daemon::GuardingFiles { pid };
            &&& past_guard(live(guarding, events)) ==> lived(guarding, events).contains(
                DaemonActionView::GuardFiles { paths: seq![PID_FILE_PATH@, SOCKET_PATH@] },
            )
            &&& !(live(guarding, events) is Refused)
        }),
    decreases events.len(),
{
    let guarding = Daemon::GuardingFiles { pid };
    if events.len() > 0 {
        let next = daemon_next(guarding, events.first());
        let rest = events.drop_first();
        if next == guarding {
            lemma_from_guard(pid, rest);
        } else {
            lemma_never_refused(next, rest);
            assert(lived(guarding, events)[0] == daemon_action(guarding));
        }
    }
}

proof fn lemma_never_refused(daemon: Daemon, events: Seq<DaemonEvent>)
    requires
        past_guard(daemon),
    ensures
        past_guard(live(daemon, events)),
    decreases events.len(),
{
    if events.len() > 0 {
        lemma_never_refused(daemon_next(daemon, events.first()), events.drop_first());
    }
}

/// Whether clients can have been talked to.
pub open spec fn has_served(daemon: Daemon) -> bool {
    daemon is Serving || daemon is Dispatching || daemon is Stopping || daemon == (Daemon::Ended {
        failure: None,
    })
}

/// A daemon that has served serves until it is told to stop, then aborts its
/// tasks, and then ends well; it never ends in any other way.
pub proof fn law_serves_until_interrupted(daemon: Daemon, event: DaemonEvent)
    requires
        has_served(daemon),
    ensures
        has_served(daemon_next(daemon, event)),
        daemon_next(daemon, event) is Stopping && !(daemon is Stopping) ==> daemon is Serving
            && event == DaemonEvent::Interrupted,
        daemon_next(daemon, event) is Ended && !(daemon is Ended) ==> daemon_action(daemon)
            == DaemonActionView::AbortAll,
{
}

/// The daemon starts to serve exactly when its process number is written, an
/// old socket, if there is one, is removed, and the socket is open; else it
/// ends, and says which of the three went wrong.
pub proof fn law_start(
    pid: u32,
    written: bool,
    exists: bool,
    removed: bool,
    bound: bool,
)
    ensures
        ({
            let d1 = daemon_next(
                Daemon::WritingPid { pid },
                DaemonEvent::Attempted { ok: written },
            );
            let d2 = daemon_next(d1, DaemonEvent::Probed { exists });
            let d3 = if d2 is RemovingOldSocket {
                daemon_next(d2, DaemonEvent::Attempted { ok: removed })
            } else {
                d2
            };
            let d4 = daemon_next(d3, DaemonEvent::Attempted { ok: bound });
            &&& daemon_action(Daemon::WritingPid { pid }) == (DaemonActionView::WriteFile {
                path: PID_FILE_PATH@,
                text: decimal(pid as nat),
            })
            &&& d4 == (if !written {
                Daemon::Ended { failure: Some(StartError::PidFile) }
            } else if exists && !removed {
                Daemon::Ended { failure: Some(StartError::OldSocket) }
            } else if !bound {
                Daemon::Ended { failure: Some(StartError::Bind) }
            } else {
                Daemon::Serving
            })
        }),
{
}

} // verus!
