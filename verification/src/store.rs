//! The `cache` command: run the compiler and keep what it printed.
//!
//! The compiler gets the user's arguments and, after them, the flag that
//! makes it print its intermediate representation. What it leaves on
//! standard output becomes an artifact, named by the second of its capture.
//! What it leaves on standard error is relayed to the user, on standard
//! output.

use vstd::prelude::*;
use vstd::string::*;

use crate::artifact::{
    artifact_name, artifact_name_of, cache_dir, cache_path, cache_path_of, CACHE_DIR,
};
use crate::capture::{relay_of, relay_text};
use crate::host::{Action, ActionView, Event, EventView, Fatal};

verus! {

/// The compiler whose output is cached.
pub const COMPILER: &'static str = "nargo";

/// The flag that asks the compiler for its intermediate representation.
pub const PRINT_FLAG: &'static str = "--print-acir";

/// The compiler's arguments for the user's `arguments`: the same, then the
/// flag.
pub open spec fn compiler_arguments_of(arguments: Seq<Seq<char>>) -> Seq<Seq<char>> {
    arguments.push(PRINT_FLAG@)
}

/// Where a `cache` command stands between two pieces of outside work.
#[derive(Debug, PartialEq, Eq)]
pub enum StoreState {
    /// The cache directory is being probed. `arguments` are the compiler's.
    ProbingDirectory { arguments: Vec<String> },
    /// The cache directory was not there and is being created.
    CreatingDirectory { arguments: Vec<String> },
    /// The compiler is running.
    Compiling,
    /// The compiler has ended; the clock is being read.
    ReadingClock { stdout: Vec<u8>, stderr: Vec<u8> },
    /// The artifact is being written; `stderr` waits to be relayed.
    Writing { stderr: Vec<u8> },
    /// The action handed out with this state ends the command.
    Finished,
}

/// A [`StoreState`] as contracts see it.
pub enum StoreStateView {
    ProbingDirectory { arguments: Seq<Seq<char>> },
    CreatingDirectory { arguments: Seq<Seq<char>> },
    Compiling,
    ReadingClock { stdout: Seq<u8>, stderr: Seq<u8> },
    Writing { stderr: Seq<u8> },
    Finished,
}

impl View for StoreState {
    type V = StoreStateView;

    open spec fn view(&self) -> StoreStateView {
        match *self {
            StoreState::ProbingDirectory { arguments } => StoreStateView::ProbingDirectory {
                arguments: arguments.deep_view(),
            },
            StoreState::CreatingDirectory { arguments } => StoreStateView::CreatingDirectory {
                arguments: arguments.deep_view(),
            },
            StoreState::Compiling => StoreStateView::Compiling,
            StoreState::ReadingClock { stdout, stderr } => StoreStateView::ReadingClock {
                stdout: stdout@,
                stderr: stderr@,
            },
            StoreState::Writing { stderr } => StoreStateView::Writing { stderr: stderr@ },
            StoreState::Finished => StoreStateView::Finished,
        }
    }
}

impl StoreState {
    /// Whether the command ends with the action that came with this state.
    pub fn is_finished(&self) -> (finished: bool)
        ensures
            finished == (self@ is Finished),
    {
        match self {
            StoreState::Finished => true,
            _ => false,
        }
    }
}

/// The run of the compiler on `arguments`.
pub open spec fn store_compile(arguments: Seq<Seq<char>>) -> (StoreStateView, ActionView) {
    (StoreStateView::Compiling, ActionView::Run { program: COMPILER@, arguments })
}

/// The end of a command on a fatal error.
pub open spec fn store_abort(fatal: Fatal) -> (StoreStateView, ActionView) {
    (StoreStateView::Finished, ActionView::Abort { fatal })
}

/// How `cache` starts on the user's `arguments`: by asking whether the cache
/// directory is there.
pub open spec fn store_begin_of(arguments: Seq<Seq<char>>) -> (StoreStateView, ActionView) {
    (
        StoreStateView::ProbingDirectory { arguments: compiler_arguments_of(arguments) },
        ActionView::Probe { path: CACHE_DIR@ },
    )
}

/// How `cache` goes on from `state` when the host answers with `event`.
///
/// A missing cache directory is created first; that it turned up meanwhile
/// is no failure. Then the compiler runs, the clock is read, and the
/// compiler's standard output is written under the name of that second,
/// byte for byte. Last, the compiler's standard error is relayed as text to
/// standard output. A failure of any piece of outside work is fatal, and so
/// is an answer that the pending action cannot give.
pub open spec fn store_step_of(state: StoreStateView, event: EventView) -> (
    StoreStateView,
    ActionView,
) {
    match state {
        StoreStateView::ProbingDirectory { arguments } => match event {
            EventView::Present { found } => if found {
                store_compile(arguments)
            } else {
                (
                    StoreStateView::CreatingDirectory { arguments },
                    ActionView::CreateDirectory { path: CACHE_DIR@ },
                )
            },
            _ => store_abort(Fatal::UnexpectedEvent),
        },
        StoreStateView::CreatingDirectory { arguments } => match event {
            EventView::Done => store_compile(arguments),
            EventView::Present { found } => if found {
                store_compile(arguments)
            } else {
                store_abort(Fatal::UnexpectedEvent)
            },
            EventView::Failed => store_abort(Fatal::DirectoryCreate),
            _ => store_abort(Fatal::UnexpectedEvent),
        },
        StoreStateView::Compiling => match event {
            EventView::Output { stdout, stderr } => (
                StoreStateView::ReadingClock { stdout, stderr },
                ActionView::ReadClock,
            ),
            EventView::Failed => store_abort(Fatal::Spawn),
            _ => store_abort(Fatal::UnexpectedEvent),
        },
        StoreStateView::ReadingClock { stdout, stderr } => match event {
            EventView::Time { seconds } => (
                StoreStateView::Writing { stderr },
                ActionView::WriteFile {
                    path: cache_path_of(artifact_name_of(seconds)),
                    contents: stdout,
                },
            ),
            EventView::Failed => store_abort(Fatal::Clock),
            _ => store_abort(Fatal::UnexpectedEvent),
        },
        StoreStateView::Writing { stderr } => match event {
            EventView::Done => match relay_of(stderr, false) {
                Some(text) => (StoreStateView::Finished, ActionView::Print { text }),
                None => store_abort(Fatal::InvalidUtf8),
            },
            EventView::Failed => store_abort(Fatal::FileWrite),
            _ => store_abort(Fatal::UnexpectedEvent),
        },
        StoreStateView::Finished => (StoreStateView::Finished, ActionView::Finish),
    }
}

/// Starts a `cache` command on the tokens that follow the command word.
pub fn store_begin(arguments: Vec<String>) -> (next: (StoreState, Action))
    ensures
        (next.0@, next.1@) == store_begin_of(arguments.deep_view()),
{
    let ghost given = arguments.deep_view();
    let mut arguments = arguments;
    arguments.push(String::from_str(PRINT_FLAG));
    assert(arguments.deep_view() =~= compiler_arguments_of(given));
    (StoreState::ProbingDirectory { arguments }, Action::Probe { path: cache_dir() })
}

/// Hands `arguments` to the compiler.
fn compile(arguments: Vec<String>) -> (next: (StoreState, Action))
    ensures
        (next.0@, next.1@) == store_compile(arguments.deep_view()),
{
    (StoreState::Compiling, Action::Run { program: String::from_str(COMPILER), arguments })
}

/// Decides the next action of a `cache` command from the state it stands in
/// and the host's answer to the action before.
pub fn store_step(state: StoreState, event: Event) -> (next: (StoreState, Action))
    ensures
        (next.0@, next.1@) == store_step_of(state@, event@),
{
    match state {
        StoreState::ProbingDirectory { arguments } => match event {
            Event::Present { found } => {
                if found {
                    compile(arguments)
                } else {
                    (
                        StoreState::CreatingDirectory { arguments },
                        Action::CreateDirectory { path: cache_dir() },
                    )
                }
            },
            _ => (StoreState::Finished, Action::Abort { fatal: Fatal::UnexpectedEvent }),
        },
        StoreState::CreatingDirectory { arguments } => match event {
            Event::Done => compile(arguments),
            Event::Present { found } => {
                if found {
                    compile(arguments)
                } else {
                    (StoreState::Finished, Action::Abort { fatal: Fatal::UnexpectedEvent })
                }
            },
            Event::Failed => (
                StoreState::Finished,
                Action::Abort { fatal: Fatal::DirectoryCreate },
            ),
            _ => (StoreState::Finished, Action::Abort { fatal: Fatal::UnexpectedEvent }),
        },
        StoreState::Compiling => match event {
            Event::Output { stdout, stderr } => (
                StoreState::ReadingClock { stdout, stderr },
                Action::ReadClock,
            ),
            Event::Failed => (StoreState::Finished, Action::Abort { fatal: Fatal::Spawn }),
            _ => (StoreState::Finished, Action::Abort { fatal: Fatal::UnexpectedEvent }),
        },
        StoreState::ReadingClock { stdout, stderr } => match event {
            Event::Time { seconds } => {
                let name = artifact_name(seconds);
                (
                    StoreState::Writing { stderr },
                    Action::WriteFile { path: cache_path(name.as_str()), contents: stdout },
                )
            },
            Event::Failed => (StoreState::Finished, Action::Abort { fatal: Fatal::Clock }),
            _ => (StoreState::Finished, Action::Abort { fatal: Fatal::UnexpectedEvent }),
        },
        StoreState::Writing { stderr } => match event {
            Event::Done => match relay_text(stderr, false) {
                Ok(text) => (StoreState::Finished, Action::Print { text }),
                Err(fatal) => (StoreState::Finished, Action::Abort { fatal }),
            },
            Event::Failed => (StoreState::Finished, Action::Abort { fatal: Fatal::FileWrite }),
            _ => (StoreState::Finished, Action::Abort { fatal: Fatal::UnexpectedEvent }),
        },
        StoreState::Finished => (StoreState::Finished, Action::Finish),
    }
}

/// A `cache` command whose outside work succeeds writes one artifact, and
/// writes it once: after the compiler has run on the user's arguments and
/// the flag, and the clock has given `seconds`, the file named by `seconds`
/// in the cache directory gets the compiler's standard output, byte for
/// byte. No action before that
/// one writes a file, and the one after it relays the compiler's standard
/// error and ends the command.
pub proof fn law_store_writes_the_capture(
    arguments: Seq<Seq<char>>,
    found: bool,
    stdout: Seq<u8>,
    stderr: Seq<u8>,
    seconds: u64,
)
    ensures
        ({
            let begun = store_begin_of(arguments);
            let probed = store_step_of(begun.0, EventView::Present { found });
            let ready = if found {
                probed
            } else {
                store_step_of(probed.0, EventView::Done)
            };
            let compiled = store_step_of(ready.0, EventView::Output { stdout, stderr });
            let timed = store_step_of(compiled.0, EventView::Time { seconds });
            let written = store_step_of(timed.0, EventView::Done);
            &&& begun.1 == ActionView::Probe { path: CACHE_DIR@ }
            &&& !found ==> probed.1 == ActionView::CreateDirectory { path: CACHE_DIR@ }
            &&& ready.1 == ActionView::Run {
                program: COMPILER@,
                arguments: arguments.push(PRINT_FLAG@),
            }
            &&& compiled.1 == ActionView::ReadClock
            &&& timed.1 == ActionView::WriteFile {
                path: CACHE_DIR@ + seq!['/'] + artifact_name_of(seconds),
                contents: stdout,
            }
            &&& written.0 == StoreStateView::Finished
            &&& written.1 == match relay_of(stderr, false) {
                Some(text) => ActionView::Print { text },
                None => ActionView::Abort { fatal: Fatal::InvalidUtf8 },
            }
        }),
{
}

} // verus!
