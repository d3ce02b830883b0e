//! The line between the tool's decisions and the outside world.
//!
//! A command never touches the file system, a subprocess, the clock or the
//! terminal. It names the next piece of outside work as an [`Action`]; the
//! host carries it out and answers with an [`Event`]; the command decides
//! again. A failure that ends the process is a [`Fatal`].

use vstd::prelude::*;

verus! {

/// Why a command cannot go on. The host ends the process with a failure
/// status on any of these.
#[derive(Clone, Copy, Debug, PartialEq, Eq, Structural)]
pub enum Fatal {
    /// The cache directory could not be created.
    DirectoryCreate,
    /// The cache directory could not be removed.
    DirectoryRemove,
    /// The cache directory could not be enumerated to its end.
    DirectoryRead,
    /// The artifact file could not be written.
    FileWrite,
    /// A subprocess could not be started.
    Spawn,
    /// The clock gave no time since the epoch.
    Clock,
    /// Captured subprocess output is not UTF-8.
    InvalidUtf8,
    /// A timestamp, given by the user or found in a file name, is not an
    /// integer of the width asked for.
    InvalidTimestamp,
    /// A timestamp has no calendar date.
    InvalidDateTime,
    /// The host answered with an event that the pending action cannot give.
    UnexpectedEvent,
}

/// What the host reports after carrying out an action.
#[derive(Debug, PartialEq, Eq)]
pub enum Event {
    /// The action was carried out and has nothing to tell.
    Done,
    /// The action could not be carried out.
    Failed,
    /// Whether the probed path is there. Also the answer to a
    /// `CreateDirectory` that found the directory in place.
    Present { found: bool },
    /// Whole seconds since the Unix epoch.
    Time { seconds: u64 },
    /// A subprocess ran to its end and left these bytes on its two streams.
    Output { stdout: Vec<u8>, stderr: Vec<u8> },
    /// The names in a directory, in the order the system gave them.
    /// `complete` is false where the enumeration broke off, on an error or
    /// on a name that is not UTF-8; `names` are then those that came before.
    Entries { names: Vec<String>, complete: bool },
}

/// An [`Event`] as contracts see it.
pub enum EventView {
    Done,
    Failed,
    Present { found: bool },
    Time { seconds: u64 },
    Output { stdout: Seq<u8>, stderr: Seq<u8> },
    Entries { names: Seq<Seq<char>>, complete: bool },
}

impl View for Event {
    type V = EventView;

    open spec fn view(&self) -> EventView {
        match *self {
            Event::Done => EventView::Done,
            Event::Failed => EventView::Failed,
            Event::Present { found } => EventView::Present { found },
            Event::Time { seconds } => EventView::Time { seconds },
            Event::Output { stdout, stderr } => EventView::Output {
                stdout: stdout@,
                stderr: stderr@,
            },
            Event::Entries { names, complete } => EventView::Entries {
                names: names.deep_view(),
                complete,
            },
        }
    }
}

/// One piece of outside work, or the end of a command.
///
/// Every path and every program is named in full by the action: the host
/// adds nothing of its own. Text is written exactly as given: where a line
/// break is due, the text holds it.
#[derive(Debug, PartialEq, Eq)]
pub enum Action {
    /// Look whether anything exists at `path`. Answer: `Present`.
    Probe { path: String },
    /// Create the directory `path`. Answer: `Done`, `Present` with `true` if
    /// it was already there, or `Failed`.
    CreateDirectory { path: String },
    /// Delete the directory `path` and all it holds. Answer: `Done` or
    /// `Failed`.
    RemoveDirectory { path: String },
    /// Enumerate the directory `path`. Answer: `Entries`, or `Failed` if it
    /// cannot be opened.
    ReadDirectory { path: String },
    /// Write `contents` to the file `path`, replacing what was there.
    /// Answer: `Done` or `Failed`.
    WriteFile { path: String, contents: Vec<u8> },
    /// Run `program` with `arguments`, in that order, and wait for it.
    /// Answer: `Output`, or `Failed` if it could not be started.
    Run { program: String, arguments: Vec<String> },
    /// Read the clock. Answer: `Time`, or `Failed` if it stands before the
    /// epoch.
    ReadClock,
    /// Write `text` to standard output. Answer: `Done`.
    Print { text: String },
    /// Write `text` to standard error. Answer: `Done`.
    Report { text: String },
    /// Nothing is left to do. Answer: `Done`.
    Finish,
    /// End the process with a failure.
    Abort { fatal: Fatal },
}

/// An [`Action`] as contracts see it.
pub enum ActionView {
    Probe { path: Seq<char> },
    CreateDirectory { path: Seq<char> },
    RemoveDirectory { path: Seq<char> },
    ReadDirectory { path: Seq<char> },
    WriteFile { path: Seq<char>, contents: Seq<u8> },
    Run { program: Seq<char>, arguments: Seq<Seq<char>> },
    ReadClock,
    Print { text: Seq<char> },
    Report { text: Seq<char> },
    Finish,
    Abort { fatal: Fatal },
}

impl View for Action {
    type V = ActionView;

    open spec fn view(&self) -> ActionView {
        match *self {
            Action::Probe { path } => ActionView::Probe { path: path@ },
            Action::CreateDirectory { path } => ActionView::CreateDirectory { path: path@ },
            Action::RemoveDirectory { path } => ActionView::RemoveDirectory { path: path@ },
            Action::ReadDirectory { path } => ActionView::ReadDirectory { path: path@ },
            Action::WriteFile { path, contents } => ActionView::WriteFile {
                path: path@,
                contents: contents@,
            },
            Action::Run { program, arguments } => ActionView::Run {
                program: program@,
                arguments: arguments.deep_view(),
            },
            Action::ReadClock => ActionView::ReadClock,
            Action::Print { text } => ActionView::Print { text: text@ },
            Action::Report { text } => ActionView::Report { text: text@ },
            Action::Finish => ActionView::Finish,
            Action::Abort { fatal } => ActionView::Abort { fatal },
        }
    }
}

} // verus!
