//! The `clean` command: empty the cache.
//!
//! The cache directory goes with all it holds, artifacts and other files
//! alike, and comes back empty.

use vstd::prelude::*;

use crate::artifact::{cache_dir, CACHE_DIR};
use crate::host::{Action, ActionView, Event, EventView, Fatal};
use crate::message::{missing_directory_text, MISSING_DIRECTORY_TEXT};

verus! {

/// Where a `clean` command stands between two pieces of outside work.
#[derive(Clone, Copy, Debug, PartialEq, Eq, Structural)]
pub enum CleanState {
    /// The cache directory is being probed.
    ProbingDirectory,
    /// The cache directory is being removed.
    Removing,
    /// The cache directory is being created anew.
    Creating,
    /// The action handed out with this state ends the command.
    Finished,
}

impl CleanState {
    /// Whether the command ends with the action that came with this state.
    pub fn is_finished(&self) -> (finished: bool)
        ensures
            finished == (*self is Finished),
    {
        match self {
            CleanState::Finished => true,
            _ => false,
        }
    }
}

/// The end of a command on a fatal error.
pub open spec fn clean_abort(fatal: Fatal) -> (CleanState, ActionView) {
    (CleanState::Finished, ActionView::Abort { fatal })
}

/// How `clean` starts: by asking whether the cache directory is there.
pub open spec fn clean_begin_of() -> (CleanState, ActionView) {
    (CleanState::ProbingDirectory, ActionView::Probe { path: CACHE_DIR@ })
}

/// How `clean` goes on from `state` when the host answers with `event`.
///
/// Without a cache directory the command says so on the error stream and
/// ends. Otherwise the directory is removed and then created. Either step
/// failing is fatal; a directory found in place at the second step has
/// failed it. An answer that the pending action cannot give is fatal too.
pub open spec fn clean_step_of(state: CleanState, event: EventView) -> (CleanState, ActionView) {
    match state {
        CleanState::ProbingDirectory => match event {
            EventView::Present { found } => if found {
                (CleanState::Removing, ActionView::RemoveDirectory { path: CACHE_DIR@ })
            } else {
                (CleanState::Finished, ActionView::Report { text: MISSING_DIRECTORY_TEXT@ })
            },
            _ => clean_abort(Fatal::UnexpectedEvent),
        },
        CleanState::Removing => match event {
            EventView::Done => (CleanState::Creating, ActionView::CreateDirectory { path: CACHE_DIR@ }),
            EventView::Failed => clean_abort(Fatal::DirectoryRemove),
            _ => clean_abort(Fatal::UnexpectedEvent),
        },
        CleanState::Creating => match event {
            EventView::Done => (CleanState::Finished, ActionView::Finish),
            EventView::Failed => clean_abort(Fatal::DirectoryCreate),
            EventView::Present { found } => if found {
                clean_abort(Fatal::DirectoryCreate)
            } else {
                clean_abort(Fatal::UnexpectedEvent)
            },
            _ => clean_abort(Fatal::UnexpectedEvent),
        },
        CleanState::Finished => (CleanState::Finished, ActionView::Finish),
    }
}

/// Starts a `clean` command.
pub fn clean_begin() -> (next: (CleanState, Action))
    ensures
        (next.0, next.1@) == clean_begin_of(),
{
    (CleanState::ProbingDirectory, Action::Probe { path: cache_dir() })
}

/// Decides the next action of a `clean` command from the state it stands in
/// and the host's answer to the action before.
pub fn clean_step(state: CleanState, event: Event) -> (next: (CleanState, Action))
    ensures
        (next.0, next.1@) == clean_step_of(state, event@),
{
    match state {
        CleanState::ProbingDirectory => match event {
            Event::Present { found } => {
                if found {
                    (CleanState::Removing, Action::RemoveDirectory { path: cache_dir() })
                } else {
                    (CleanState::Finished, Action::Report { text: missing_directory_text() })
                }
            },
            _ => (CleanState::Finished, Action::Abort { fatal: Fatal::UnexpectedEvent }),
        },
        CleanState::Removing => match event {
            Event::Done => (CleanState::Creating, Action::CreateDirectory { path: cache_dir() }),
            Event::Failed => (
                CleanState::Finished,
                Action::Abort { fatal: Fatal::DirectoryRemove },
            ),
            _ => (CleanState::Finished, Action::Abort { fatal: Fatal::UnexpectedEvent }),
        },
        CleanState::Creating => match event {
            Event::Done => (CleanState::Finished, Action::Finish),
            Event::Failed => (
                CleanState::Finished,
                Action::Abort { fatal: Fatal::DirectoryCreate },
            ),
            Event::Present { found } => {
                if found {
                    (CleanState::Finished, Action::Abort { fatal: Fatal::DirectoryCreate })
                } else {
                    (CleanState::Finished, Action::Abort { fatal: Fatal::UnexpectedEvent })
                }
            },
            _ => (CleanState::Finished, Action::Abort { fatal: Fatal::UnexpectedEvent }),
        },
        CleanState::Finished => (CleanState::Finished, Action::Finish),
    }
}

/// On a cache directory that is there, and with outside work that succeeds,
/// `clean` removes the directory with all it holds, creates it, and is done:
/// these three actions in this order, and no other.
pub proof fn law_clean_removes_then_creates()
    ensures
        clean_begin_of() == (CleanState::ProbingDirectory, ActionView::Probe { path: CACHE_DIR@ }),
        clean_step_of(CleanState::ProbingDirectory, EventView::Present { found: true }) == (
            CleanState::Removing,
            ActionView::RemoveDirectory { path: CACHE_DIR@ },
        ),
        clean_step_of(CleanState::Removing, EventView::Done) == (
            CleanState::Creating,
            ActionView::CreateDirectory { path: CACHE_DIR@ },
        ),
        clean_step_of(CleanState::Creating, EventView::Done) == (
            CleanState::Finished,
            ActionView::Finish,
        ),
{
}

} // verus!
