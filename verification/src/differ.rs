//! The `diff` command: compare two cached artifacts.
//!
//! With one stamp the artifact is compared with the newest other artifact in
//! the cache, and with nothing where there is no other; with two stamps the
//! two are compared with each other. Any other number of tokens gets the
//! help text.

use vstd::prelude::*;
use vstd::string::*;

use crate::artifact::{
    artifact_name, artifact_name_of, artifact_stem, cache_dir, cache_path, cache_path_of,
    is_artifact_name, law_artifact_name_reads_back, split_artifact_name, CACHE_DIR,
};
use crate::capture::{relay_of, relay_text};
use crate::decimal::{decimal, parse_u64, parse_unsigned};
use crate::host::{Action, ActionView, Event, EventView, Fatal};
use crate::message::{help_text, missing_artifact_text, missing_artifact_text_of, HELP_TEXT};
use crate::store::{store_step_of, StoreStateView};

verus! {

/// The tool that compares two files line by line.
pub const DIFF_TOOL: &'static str = "diff";

/// The stamp that an artifact name carries, read as an unsigned number.
pub open spec fn stamp_of(name: Seq<char>) -> Option<u64>
    recommends
        is_artifact_name(name),
{
    parse_unsigned(artifact_stem(name))
}

/// Whether `name` claims to be an artifact and carries no unsigned stamp.
pub open spec fn is_malformed(name: Seq<char>) -> bool {
    is_artifact_name(name) && stamp_of(name) is None
}

/// Whether `name` is an artifact with the stamp `stamp` and another file
/// than `own`.
pub open spec fn is_other(name: Seq<char>, own: Seq<char>, stamp: u64) -> bool {
    name != own && is_artifact_name(name) && stamp_of(name) == Some(stamp)
}

/// Whether entry `k` is the newest artifact other than `own` among the first
/// `n` entries of `names`: it is an artifact and not the file `own`, no
/// other artifact among them has a greater stamp, and none before it has the
/// same. Entries that are no artifacts do not count, and neither does `own`.
pub open spec fn is_latest_within(names: Seq<Seq<char>>, own: Seq<char>, n: int, k: int) -> bool {
    &&& 0 <= k < n <= names.len()
    &&& names[k] != own
    &&& is_artifact_name(names[k])
    &&& stamp_of(names[k]) matches Some(best)
    &&& forall|j: int, other: u64|
        0 <= j < n && #[trigger] is_other(names[j], own, other) ==> other <= best && (j < k
            ==> other < best)
}

/// Whether entry `k` is the newest artifact other than `own` in the whole
/// enumeration.
pub open spec fn is_latest(names: Seq<Seq<char>>, own: Seq<char>, k: int) -> bool {
    is_latest_within(names, own, names.len() as int, k)
}

/// What a look through the cache directory comes to.
#[derive(Clone, Copy, Debug, PartialEq, Eq, Structural)]
pub enum Scan {
    /// Some artifact name carries no unsigned stamp.
    Malformed,
    /// There is no artifact but the one that asks.
    Nothing,
    /// The newest other artifact stands at this place of the enumeration.
    Latest { index: usize },
}

/// A [`Scan`] as contracts see it.
pub enum ScanView {
    Malformed,
    Nothing,
    Latest { index: int },
}

impl View for Scan {
    type V = ScanView;

    open spec fn view(&self) -> ScanView {
        match *self {
            Scan::Malformed => ScanView::Malformed,
            Scan::Nothing => ScanView::Nothing,
            Scan::Latest { index } => ScanView::Latest { index: index as int },
        }
    }
}

/// The outcome of the look through `names` for a partner of the file `own`.
/// A malformed artifact name anywhere spoils the whole look. Otherwise the
/// newest artifact other than `own` wins; among equal stamps the one
/// enumerated first.
pub open spec fn scan_of(names: Seq<Seq<char>>, own: Seq<char>) -> ScanView {
    if exists|i: int| 0 <= i < names.len() && is_malformed(#[trigger] names[i]) {
        ScanView::Malformed
    } else if exists|k: int| is_latest(names, own, k) {
        ScanView::Latest { index: choose|k: int| is_latest(names, own, k) }
    } else {
        ScanView::Nothing
    }
}

/// At most one entry is the newest.
pub proof fn lemma_latest_is_unique(names: Seq<Seq<char>>, own: Seq<char>, n: int, a: int, b: int)
    requires
        is_latest_within(names, own, n, a),
        is_latest_within(names, own, n, b),
    ensures
        a == b,
{
    let ta = stamp_of(names[a])->0;
    let tb = stamp_of(names[b])->0;
    assert(is_other(names[a], own, ta));
    assert(is_other(names[b], own, tb));
}

/// Looks through the enumeration `names` for the newest artifact that is not
/// the file `own`.
pub fn scan(names: &Vec<String>, own: &String) -> (found: Scan)
    ensures
        found@ == scan_of(names.deep_view(), own@),
        found matches Scan::Latest { index } ==> is_latest(names.deep_view(), own@, index as int),
{
    let ghost all = names.deep_view();
    let mut best: Option<usize> = None;
    let mut best_stamp: u64 = 0;
    let mut i: usize = 0;
    while i < names.len()
        invariant
            all == names.deep_view(),
            0 <= i <= names.len(),
            forall|j: int| 0 <= j < i ==> !is_malformed(#[trigger] all[j]),
            best is None ==> forall|j: int, other: u64|
                0 <= j < i ==> !#[trigger] is_other(all[j], own@, other),
            best matches Some(k) ==> is_latest_within(all, own@, i as int, k as int) && stamp_of(
                all[k as int],
            ) == Some(best_stamp),
        decreases names.len() - i,
    {
        assert(all[i as int] == names@[i as int]@);
        match split_artifact_name(names[i].as_str()) {
            Some(stem) => match parse_u64(stem) {
                Some(stamp) => {
                    let is_own = names[i] == *own;
                    if !is_own && (best.is_none() || stamp > best_stamp) {
                        best_stamp = stamp;
                        best = Some(i);
                    }
                },
                None => {
                    assert(is_malformed(all[i as int]));
                    return Scan::Malformed;
                },
            },
            None => {},
        }
        i = i + 1;
    }
    match best {
        Some(k) => {
            proof {
                assert(is_latest(all, own@, k as int));
                let chosen = choose|c: int| is_latest(all, own@, c);
                lemma_latest_is_unique(all, own@, all.len() as int, chosen, k as int);
            }
            Scan::Latest { index: k }
        },
        None => {
            assert forall|k: int| !is_latest(all, own@, k) by {
                if is_latest(all, own@, k) {
                    assert(is_other(all[k], own@, stamp_of(all[k])->0));
                }
            }
            Scan::Nothing
        },
    }
}

/// Where a `diff` command stands between two pieces of outside work.
#[derive(Debug, PartialEq, Eq)]
pub enum DiffState {
    /// One stamp was given; its artifact is being probed.
    ProbingOnly { stamp: u64 },
    /// One stamp was given and its artifact is there; the cache directory is
    /// being enumerated for the newest artifact.
    Scanning { stamp: u64 },
    /// Two tokens were given; the artifact of the first is being probed. The
    /// second, kept here as `token`, is not read before that artifact is
    /// known to be there.
    ProbingFirst { stamp: u64, token: String },
    /// Two stamps were given and the first artifact is there; the artifact
    /// of the second is being probed.
    ProbingSecond { first: u64, second: u64 },
    /// The diff tool is running. A line break follows its output where two
    /// stamps were given, and not where one was.
    Comparing { line_break: bool },
    /// The action handed out with this state ends the command.
    Finished,
}

/// A [`DiffState`] as contracts see it.
pub enum DiffStateView {
    ProbingOnly { stamp: u64 },
    Scanning { stamp: u64 },
    ProbingFirst { stamp: u64, token: Seq<char> },
    ProbingSecond { first: u64, second: u64 },
    Comparing { line_break: bool },
    Finished,
}

impl View for DiffState {
    type V = DiffStateView;

    open spec fn view(&self) -> DiffStateView {
        match *self {
            DiffState::ProbingOnly { stamp } => DiffStateView::ProbingOnly { stamp },
            DiffState::Scanning { stamp } => DiffStateView::Scanning { stamp },
            DiffState::ProbingFirst { stamp, token } => DiffStateView::ProbingFirst {
                stamp,
                token: token@,
            },
            DiffState::ProbingSecond { first, second } => DiffStateView::ProbingSecond {
                first,
                second,
            },
            DiffState::Comparing { line_break } => DiffStateView::Comparing { line_break },
            DiffState::Finished => DiffStateView::Finished,
        }
    }
}

impl DiffState {
    /// Whether the command ends with the action that came with this state.
    pub fn is_finished(&self) -> (finished: bool)
        ensures
            finished == (self@ is Finished),
    {
        match self {
            DiffState::Finished => true,
            _ => false,
        }
    }
}

/// The end of a command on a fatal error.
pub open spec fn diff_abort(fatal: Fatal) -> (DiffStateView, ActionView) {
    (DiffStateView::Finished, ActionView::Abort { fatal })
}

/// The end of a command on a text for the error stream.
pub open spec fn diff_report(text: Seq<char>) -> (DiffStateView, ActionView) {
    (DiffStateView::Finished, ActionView::Report { text })
}

/// The probe for the artifact of `stamp`.
pub open spec fn diff_probe(stamp: u64) -> ActionView {
    ActionView::Probe { path: cache_path_of(artifact_name_of(stamp)) }
}

/// The run of the diff tool on the entries `first` and `second` of the cache
/// directory, in this order.
pub open spec fn diff_run(first: Seq<char>, second: Seq<char>, line_break: bool) -> (
    DiffStateView,
    ActionView,
) {
    (
        DiffStateView::Comparing { line_break },
        ActionView::Run {
            program: DIFF_TOOL@,
            arguments: seq![cache_path_of(first), cache_path_of(second)],
        },
    )
}

/// How `diff` starts on its `tokens`.
///
/// One or two tokens: the first is read as an unsigned stamp, which is fatal
/// if it is none, and its artifact is probed. Any other count: the help text
/// goes to the error stream and nothing else happens.
pub open spec fn diff_begin_of(tokens: Seq<Seq<char>>) -> (DiffStateView, ActionView) {
    if tokens.len() == 1 || tokens.len() == 2 {
        match parse_unsigned(tokens[0]) {
            Some(stamp) => (
                if tokens.len() == 1 {
                    DiffStateView::ProbingOnly { stamp }
                } else {
                    DiffStateView::ProbingFirst { stamp, token: tokens[1] }
                },
                diff_probe(stamp),
            ),
            None => diff_abort(Fatal::InvalidTimestamp),
        }
    } else {
        diff_report(HELP_TEXT@)
    }
}

/// How `diff` goes on from `state` when the host answers with `event`.
///
/// A probed artifact that is not there ends the command with the complaint
/// about its stamp; the first stamp is probed before the second token is
/// even read. With one stamp, the cache directory is then looked through:
/// the newest artifact other than the one given becomes the second file of
/// the comparison, and where there is no other the command ends in silence,
/// without a comparison. A malformed artifact name in the enumeration is
/// fatal, and so is, after it, an enumeration that broke off. The diff
/// tool's standard output is relayed as text. An answer that the pending
/// action cannot give is fatal, and so is a failure of the action itself.
pub open spec fn diff_step_of(state: DiffStateView, event: EventView) -> (
    DiffStateView,
    ActionView,
) {
    match state {
        DiffStateView::ProbingOnly { stamp } => match event {
            EventView::Present { found } => if found {
                (DiffStateView::Scanning { stamp }, ActionView::ReadDirectory { path: CACHE_DIR@ })
            } else {
                diff_report(missing_artifact_text_of(stamp))
            },
            _ => diff_abort(Fatal::UnexpectedEvent),
        },
        DiffStateView::Scanning { stamp } => match event {
            EventView::Entries { names, complete } => match scan_of(
                names,
                artifact_name_of(stamp),
            ) {
                ScanView::Malformed => diff_abort(Fatal::InvalidTimestamp),
                ScanView::Nothing => if complete {
                    (DiffStateView::Finished, ActionView::Finish)
                } else {
                    diff_abort(Fatal::DirectoryRead)
                },
                ScanView::Latest { index } => if complete {
                    diff_run(artifact_name_of(stamp), names[index], false)
                } else {
                    diff_abort(Fatal::DirectoryRead)
                },
            },
            EventView::Failed => diff_abort(Fatal::DirectoryRead),
            _ => diff_abort(Fatal::UnexpectedEvent),
        },
        DiffStateView::ProbingFirst { stamp, token } => match event {
            EventView::Present { found } => if found {
                match parse_unsigned(token) {
                    Some(other) => (
                        DiffStateView::ProbingSecond { first: stamp, second: other },
                        diff_probe(other),
                    ),
                    None => diff_abort(Fatal::InvalidTimestamp),
                }
            } else {
                diff_report(missing_artifact_text_of(stamp))
            },
            _ => diff_abort(Fatal::UnexpectedEvent),
        },
        DiffStateView::ProbingSecond { first, second } => match event {
            EventView::Present { found } => if found {
                diff_run(artifact_name_of(first), artifact_name_of(second), true)
            } else {
                diff_report(missing_artifact_text_of(second))
            },
            _ => diff_abort(Fatal::UnexpectedEvent),
        },
        DiffStateView::Comparing { line_break } => match event {
            EventView::Output { stdout, .. } => match relay_of(stdout, line_break) {
                Some(text) => (DiffStateView::Finished, ActionView::Print { text }),
                None => diff_abort(Fatal::InvalidUtf8),
            },
            EventView::Failed => diff_abort(Fatal::Spawn),
            _ => diff_abort(Fatal::UnexpectedEvent),
        },
        DiffStateView::Finished => (DiffStateView::Finished, ActionView::Finish),
    }
}

/// Asks whether the artifact of `stamp` is there.
fn probe(stamp: u64) -> (action: Action)
    ensures
        action@ == diff_probe(stamp),
{
    let name = artifact_name(stamp);
    Action::Probe { path: cache_path(name.as_str()) }
}

/// Hands the entries `first` and `second` of the cache directory to the diff
/// tool.
fn run(first: &str, second: &str, line_break: bool) -> (next: (DiffState, Action))
    ensures
        (next.0@, next.1@) == diff_run(first@, second@, line_break),
{
    let mut arguments: Vec<String> = Vec::new();
    arguments.push(cache_path(first));
    arguments.push(cache_path(second));
    assert(arguments.deep_view() =~= seq![cache_path_of(first@), cache_path_of(second@)]);
    (
        DiffState::Comparing { line_break },
        Action::Run { program: String::from_str(DIFF_TOOL), arguments },
    )
}

/// Starts a `diff` command on the tokens that follow the command word.
pub fn diff_begin(tokens: Vec<String>) -> (next: (DiffState, Action))
    ensures
        (next.0@, next.1@) == diff_begin_of(tokens.deep_view()),
{
    let mut tokens = tokens;
    let ghost given = tokens.deep_view();
    let count = tokens.len();
    if count != 1 && count != 2 {
        return (DiffState::Finished, Action::Report { text: help_text() });
    }
    assert(given[0] == tokens@[0]@);
    let stamp = match parse_u64(tokens[0].as_str()) {
        Some(stamp) => stamp,
        None => {
            return (DiffState::Finished, Action::Abort { fatal: Fatal::InvalidTimestamp });
        },
    };
    if count == 1 {
        (DiffState::ProbingOnly { stamp }, probe(stamp))
    } else {
        assert(given[1] == tokens@[1]@);
        let token = tokens.remove(1);
        (DiffState::ProbingFirst { stamp, token }, probe(stamp))
    }
}

/// Decides the next action of a `diff` command from the state it stands in
/// and the host's answer to the action before.
pub fn diff_step(state: DiffState, event: Event) -> (next: (DiffState, Action))
    ensures
        (next.0@, next.1@) == diff_step_of(state@, event@),
{
    match state {
        DiffState::ProbingOnly { stamp } => match event {
            Event::Present { found } => {
                if found {
                    (DiffState::Scanning { stamp }, Action::ReadDirectory { path: cache_dir() })
                } else {
                    (DiffState::Finished, Action::Report { text: missing_artifact_text(stamp) })
                }
            },
            _ => (DiffState::Finished, Action::Abort { fatal: Fatal::UnexpectedEvent }),
        },
        DiffState::Scanning { stamp } => match event {
            Event::Entries { names, complete } => {
                let own = artifact_name(stamp);
                match scan(&names, &own) {
                    Scan::Malformed => (
                        DiffState::Finished,
                        Action::Abort { fatal: Fatal::InvalidTimestamp },
                    ),
                    Scan::Nothing => {
                        if complete {
                            (DiffState::Finished, Action::Finish)
                        } else {
                            (DiffState::Finished, Action::Abort { fatal: Fatal::DirectoryRead })
                        }
                    },
                    Scan::Latest { index } => {
                        if complete {
                            assert(names@[index as int]@ == names.deep_view()[index as int]);
                            run(own.as_str(), names[index].as_str(), false)
                        } else {
                            (DiffState::Finished, Action::Abort { fatal: Fatal::DirectoryRead })
                        }
                    },
                }
            },
            Event::Failed => (DiffState::Finished, Action::Abort { fatal: Fatal::DirectoryRead }),
            _ => (DiffState::Finished, Action::Abort { fatal: Fatal::UnexpectedEvent }),
        },
        DiffState::ProbingFirst { stamp, token } => match event {
            Event::Present { found } => {
                if found {
                    match parse_u64(token.as_str()) {
                        Some(other) => (
                            DiffState::ProbingSecond { first: stamp, second: other },
                            probe(other),
                        ),
                        None => (
                            DiffState::Finished,
                            Action::Abort { fatal: Fatal::InvalidTimestamp },
                        ),
                    }
                } else {
                    (DiffState::Finished, Action::Report { text: missing_artifact_text(stamp) })
                }
            },
            _ => (DiffState::Finished, Action::Abort { fatal: Fatal::UnexpectedEvent }),
        },
        DiffState::ProbingSecond { first, second } => match event {
            Event::Present { found } => {
                if found {
                    let left = artifact_name(first);
                    let right = artifact_name(second);
                    run(left.as_str(), right.as_str(), true)
                } else {
                    (DiffState::Finished, Action::Report { text: missing_artifact_text(second) })
                }
            },
            _ => (DiffState::Finished, Action::Abort { fatal: Fatal::UnexpectedEvent }),
        },
        DiffState::Comparing { line_break } => match event {
            Event::Output { stdout, .. } => match relay_text(stdout, line_break) {
                Ok(text) => (DiffState::Finished, Action::Print { text }),
                Err(fatal) => (DiffState::Finished, Action::Abort { fatal }),
            },
            Event::Failed => (DiffState::Finished, Action::Abort { fatal: Fatal::Spawn }),
            _ => (DiffState::Finished, Action::Abort { fatal: Fatal::UnexpectedEvent }),
        },
        DiffState::Finished => (DiffState::Finished, Action::Finish),
    }
}

/// `diff` with one stamp whose artifact is not there: the command probes the
/// file of that stamp and, told that it is missing, ends with the complaint
/// about the stamp on the error stream. The diff tool is not run and
/// nothing goes to standard output: a command that has ended only ever
/// finishes.
pub proof fn law_missing_artifact_is_reported(token: Seq<char>, stamp: u64, later: EventView)
    requires
        parse_unsigned(token) == Some(stamp),
    ensures
        diff_begin_of(seq![token]) == (
            DiffStateView::ProbingOnly { stamp },
            ActionView::Probe { path: cache_path_of(artifact_name_of(stamp)) },
        ),
        diff_step_of(diff_begin_of(seq![token]).0, EventView::Present { found: false }) == (
            DiffStateView::Finished,
            ActionView::Report { text: missing_artifact_text_of(stamp) },
        ),
        diff_step_of(DiffStateView::Finished, later) == (
            DiffStateView::Finished,
            ActionView::Finish,
        ),
{
}

/// The partner that a look through the cache finds for the file `own` is
/// never `own` itself.
pub proof fn law_partner_is_another_file(names: Seq<Seq<char>>, own: Seq<char>)
    ensures
        scan_of(names, own) matches ScanView::Latest { index } ==> {
            &&& 0 <= index < names.len()
            &&& names[index] != own
            &&& is_latest(names, own, index)
        },
{
    if scan_of(names, own) is Latest {
        let k = choose|k: int| is_latest(names, own, k);
        assert(is_latest(names, own, k));
    }
}

/// `diff` with one stamp where the cache holds no other artifact: told that
/// the artifact is there and shown an enumeration in which every artifact is
/// that very file, the command ends without running the diff tool and
/// without a word on either stream.
pub proof fn law_lone_artifact_is_not_compared(stamp: u64, names: Seq<Seq<char>>)
    requires
        forall|i: int|
            0 <= i < names.len() && is_artifact_name(#[trigger] names[i]) ==> names[i]
                == artifact_name_of(stamp),
    ensures
        diff_step_of(DiffStateView::ProbingOnly { stamp }, EventView::Present { found: true }) == (
            DiffStateView::Scanning { stamp },
            ActionView::ReadDirectory { path: CACHE_DIR@ },
        ),
        diff_step_of(
            DiffStateView::Scanning { stamp },
            EventView::Entries { names, complete: true },
        ) == (DiffStateView::Finished, ActionView::Finish),
{
    let own = artifact_name_of(stamp);
    law_artifact_name_reads_back(stamp);
    assert forall|i: int| 0 <= i < names.len() implies !is_malformed(#[trigger] names[i]) by {
        if is_artifact_name(names[i]) {
            assert(names[i] == own);
        }
    }
    assert forall|k: int| !is_latest(names, own, k) by {
        if is_latest(names, own, k) {
            assert(is_artifact_name(names[k]));
        }
    }
}

/// `diff` with one stamp where the cache holds other artifacts: the diff
/// tool runs on the file of the stamp and on the newest other artifact, in
/// this order, and its standard output is printed as it is.
pub proof fn law_single_is_compared_with_newest_other(
    stamp: u64,
    names: Seq<Seq<char>>,
    k: int,
    stdout: Seq<u8>,
    stderr: Seq<u8>,
)
    requires
        forall|i: int| 0 <= i < names.len() ==> !is_malformed(#[trigger] names[i]),
        is_latest(names, artifact_name_of(stamp), k),
        vstd::utf8::valid_utf8(stdout),
    ensures
        ({
            let started = diff_step_of(
                DiffStateView::Scanning { stamp },
                EventView::Entries { names, complete: true },
            );
            &&& started.1 == ActionView::Run {
                program: DIFF_TOOL@,
                arguments: seq![
                    cache_path_of(artifact_name_of(stamp)),
                    cache_path_of(names[k]),
                ],
            }
            &&& diff_step_of(started.0, EventView::Output { stdout, stderr }) == (
                DiffStateView::Finished,
                ActionView::Print { text: vstd::utf8::decode_utf8(stdout) },
            )
        }),
{
    let own = artifact_name_of(stamp);
    let chosen = choose|c: int| is_latest(names, own, c);
    lemma_latest_is_unique(names, own, names.len() as int, chosen, k);
}

/// `diff` with two stamps whose artifacts are both there: the diff tool runs
/// on the file of the first stamp and the file of the second, in this order,
/// and its standard output is printed in full with a line break after it.
pub proof fn law_pair_is_compared_in_order(
    first_token: Seq<char>,
    second_token: Seq<char>,
    first: u64,
    second: u64,
    stdout: Seq<u8>,
    stderr: Seq<u8>,
)
    requires
        parse_unsigned(first_token) == Some(first),
        parse_unsigned(second_token) == Some(second),
        vstd::utf8::valid_utf8(stdout),
    ensures
        ({
            let begun = diff_begin_of(seq![first_token, second_token]);
            let probed = diff_step_of(begun.0, EventView::Present { found: true });
            let started = diff_step_of(probed.0, EventView::Present { found: true });
            let ended = diff_step_of(started.0, EventView::Output { stdout, stderr });
            &&& begun.1 == ActionView::Probe { path: cache_path_of(artifact_name_of(first)) }
            &&& probed.1 == ActionView::Probe { path: cache_path_of(artifact_name_of(second)) }
            &&& started.1 == ActionView::Run {
                program: DIFF_TOOL@,
                arguments: seq![
                    cache_path_of(artifact_name_of(first)),
                    cache_path_of(artifact_name_of(second)),
                ],
            }
            &&& ended == (
                DiffStateView::Finished,
                ActionView::Print { text: vstd::utf8::decode_utf8(stdout).push('\n') },
            )
        }),
{
}

/// `diff` with two stamps of which one has no artifact: the complaint names
/// the first that is missing, and the command ends there. The first stamp is
/// probed first, and the second token is not even read unless the first
/// artifact is there.
pub proof fn law_pair_reports_first_missing(
    first_token: Seq<char>,
    second_token: Seq<char>,
    first: u64,
)
    requires
        parse_unsigned(first_token) == Some(first),
    ensures
        ({
            let begun = diff_begin_of(seq![first_token, second_token]);
            let probed = diff_step_of(begun.0, EventView::Present { found: true });
            &&& begun.1 == ActionView::Probe { path: cache_path_of(artifact_name_of(first)) }
            &&& diff_step_of(begun.0, EventView::Present { found: false }) == (
                DiffStateView::Finished,
                ActionView::Report { text: missing_artifact_text_of(first) },
            )
            &&& parse_unsigned(second_token) matches Some(second) ==> {
                &&& probed.1 == ActionView::Probe {
                    path: cache_path_of(artifact_name_of(second)),
                }
                &&& diff_step_of(probed.0, EventView::Present { found: false }) == (
                    DiffStateView::Finished,
                    ActionView::Report { text: missing_artifact_text_of(second) },
                )
            }
        }),
{
}

/// What `cache` stores, `diff` finds: the file that `cache` writes when the
/// clock gives `seconds` is the file that `diff` probes when it is given
/// `seconds` in decimal, and the file that it hands to the diff tool.
pub proof fn law_diff_finds_what_cache_stored(seconds: u64, stdout: Seq<u8>, stderr: Seq<u8>)
    ensures
        ({
            let stored = store_step_of(
                StoreStateView::ReadingClock { stdout, stderr },
                EventView::Time { seconds },
            );
            let path = cache_path_of(artifact_name_of(seconds));
            let begun = diff_begin_of(seq![decimal(seconds as nat)]);
            &&& stored.1 == ActionView::WriteFile { path, contents: stdout }
            &&& begun == (
                DiffStateView::ProbingOnly { stamp: seconds },
                ActionView::Probe { path },
            )
        }),
{
    law_artifact_name_reads_back(seconds);
}

} // verus!
