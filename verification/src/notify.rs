//! When the user and the agent in the pane are told that a pipeline is done.

use crate::text::{same_trimmed, trimmed};
use vstd::prelude::*;

verus! {

/// When desktop notifications are sent.
#[derive(Copy, Clone, Debug, PartialEq, Eq, PartialOrd, Ord, Structural)]
pub enum NotifyMode {
    /// Never send notifications.
    Never,
    /// Only notify when pane contents have changed.
    PaneContentsChanged,
    /// Always send notifications.
    Always,
}

impl Default for NotifyMode {
    fn default() -> (mode: Self)
        ensures
            mode == NotifyMode::Always,
    {
        NotifyMode::Always
    }
}

/// Whether a pane shows the same as before, white space at either end aside.
pub open spec fn pane_unchanged(before: Seq<char>, now: Seq<char>) -> bool {
    trimmed(now) == trimmed(before)
}

/// What is sent once a pipeline is done.
#[derive(Copy, Clone, Debug, PartialEq, Eq, Structural)]
pub struct Notices {
    /// Whether a prompt goes to the pane.
    pub prompt: bool,
    /// Whether a desktop notification is sent, and then whether it says that
    /// the agent was prompted.
    pub desktop: Option<bool>,
}

/// A prompt goes to an unchanged pane in every mode; the mode decides on the
/// desktop notification, which says whether the agent was prompted.
pub open spec fn notices_for(mode: NotifyMode, unchanged: bool) -> Notices {
    Notices {
        prompt: unchanged,
        desktop: match mode {
            NotifyMode::Never => None,
            NotifyMode::PaneContentsChanged => if unchanged {
                None
            } else {
                Some(false)
            },
            NotifyMode::Always => Some(unchanged),
        },
    }
}

impl Notices {
    /// Decides what is sent, from the mode and from what the pane showed when
    /// watching began and what it shows now.
    pub fn decide(mode: NotifyMode, before: &str, now: &str) -> (notices: Notices)
        ensures
            notices == notices_for(mode, pane_unchanged(before@, now@)),
    {
        let unchanged = same_trimmed(now, before);
        let desktop = match mode {
            NotifyMode::Never => None,
            NotifyMode::PaneContentsChanged => if unchanged {
                None
            } else {
                Some(false)
            },
            NotifyMode::Always => Some(unchanged),
        };
        Notices { prompt: unchanged, desktop }
    }
}

} // verus!
