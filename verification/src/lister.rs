//! The `list` command: show the cached artifacts with the time of their
//! capture.
//!
//! Every entry of the cache directory that carries the artifact extension
//! gets a line: its stamp as a UTC date and time, a colon and a space, and
//! the entry's name. Entries come in the order of the enumeration; other
//! entries are passed over.

use vstd::prelude::*;
use vstd::string::*;

use crate::artifact::{
    artifact_stem, cache_dir, is_artifact_name, split_artifact_name, CACHE_DIR,
};
use crate::decimal::{parse_i64, parse_signed};
use crate::host::{Action, ActionView, Event, EventView, Fatal};
use crate::message::{missing_directory_text, MISSING_DIRECTORY_TEXT};

verus! {

/// The pattern of the date and time in a line: year, month and day with
/// hyphens between them, a space, then hour, minute and second with colons.
pub const STAMP_PATTERN: &'static str = "%Y-%m-%d %H:%M:%S";

/// The text that chrono gives for the moment `seconds` and `nanos` after the
/// Unix epoch, in UTC and written after `pattern`; `None` where chrono has no
/// date-time for that moment.
pub uninterp spec fn utc_text(seconds: i64, nanos: u32, pattern: Seq<char>) -> Option<Seq<char>>;

/// Calls chrono: `DateTime::from_timestamp` makes the UTC date-time of the
/// moment, and `DateTime::format` with `to_string` writes it after the
/// pattern. Nothing is proved of either. The contract only gives the outcome
/// its name, [`utc_text`]: it depends on the three arguments and on nothing
/// else. Writing panics on a pattern that chrono cannot read, so the one
/// pattern of this library is required.
#[verifier::external_body]
fn format_utc(seconds: i64, nanos: u32, pattern: &str) -> (text: Option<String>)
    requires
        pattern@ == STAMP_PATTERN@,
    ensures
        text is Some <==> utc_text(seconds, nanos, pattern@) is Some,
        text matches Some(written) ==> utc_text(seconds, nanos, pattern@) == Some(written@),
{
    match chrono::DateTime::from_timestamp(seconds, nanos) {
        Some(moment) => Some(moment.format(pattern).to_string()),
        None => None,
    }
}

/// The line for the artifact `name` whose stamp is written as `moment`.
pub open spec fn line_of(moment: Seq<char>, name: Seq<char>) -> Seq<char> {
    moment + seq![':', ' '] + name
}

/// Puts a line together from the written stamp and the entry's name.
pub fn format_line(moment: &str, name: &str) -> (text: String)
    ensures
        text@ == line_of(moment@, name@),
{
    let mut text = String::from_str(moment);
    proof {
        reveal_strlit(": ");
    }
    text.append(": ");
    text.append(name);
    assert(text@ =~= line_of(moment@, name@));
    text
}

/// What an entry named `name` comes to in a listing: no line for a name
/// without the artifact extension; for an artifact, the line with its stamp
/// read as a signed number of seconds. An artifact whose stamp is no such
/// number, or has no UTC date-time, is fatal.
pub open spec fn entry_of(name: Seq<char>) -> Result<Option<Seq<char>>, Fatal> {
    if !is_artifact_name(name) {
        Ok(None)
    } else {
        match parse_signed(artifact_stem(name)) {
            None => Err(Fatal::InvalidTimestamp),
            Some(seconds) => match utc_text(seconds, 0, STAMP_PATTERN@) {
                None => Err(Fatal::InvalidDateTime),
                Some(moment) => Ok(Some(line_of(moment, name))),
            },
        }
    }
}

/// Decides what the entry `name` contributes to a listing.
pub fn list_entry(name: &str) -> (entry: Result<Option<String>, Fatal>)
    ensures
        match entry {
            Ok(Some(text)) => entry_of(name@) == Ok::<_, Fatal>(Some(text@)),
            Ok(None) => entry_of(name@) == Ok::<Option<Seq<char>>, Fatal>(None),
            Err(fatal) => entry_of(name@) == Err::<Option<Seq<char>>, _>(fatal),
        },
{
    let stem = match split_artifact_name(name) {
        Some(stem) => stem,
        None => {
            return Ok(None);
        },
    };
    let seconds = match parse_i64(stem) {
        Some(seconds) => seconds,
        None => {
            return Err(Fatal::InvalidTimestamp);
        },
    };
    match format_utc(seconds, 0, STAMP_PATTERN) {
        Some(moment) => Ok(Some(format_line(moment.as_str(), name))),
        None => Err(Fatal::InvalidDateTime),
    }
}

/// The line of an entry, where it has one.
pub open spec fn entry_line(name: Seq<char>) -> Option<Seq<char>> {
    match entry_of(name) {
        Ok(line) => line,
        Err(_) => None,
    }
}

/// [`entry_line`] as a value.
pub open spec fn line_picker() -> spec_fn(Seq<char>) -> Option<Seq<char>> {
    |name: Seq<char>| entry_line(name)
}

/// Whether a listing of `names` gets as far as entry `cut` and no further:
/// no entry before it is fatal, and it is the end of the enumeration or a
/// fatal entry itself.
pub open spec fn is_cut(names: Seq<Seq<char>>, cut: int) -> bool {
    &&& 0 <= cut <= names.len()
    &&& forall|j: int| 0 <= j < cut ==> #[trigger] entry_of(names[j]) is Ok
    &&& cut < names.len() ==> entry_of(names[cut]) is Err
}

/// A listing: the lines to print, and the fatal error that stopped it, if
/// one did.
#[derive(Debug, PartialEq, Eq)]
pub struct Listing {
    pub lines: Vec<String>,
    pub failure: Option<Fatal>,
}

/// A [`Listing`] as contracts see it.
pub struct ListingView {
    pub lines: Seq<Seq<char>>,
    pub failure: Option<Fatal>,
}

impl View for Listing {
    type V = ListingView;

    open spec fn view(&self) -> ListingView {
        ListingView { lines: self.lines.deep_view(), failure: self.failure }
    }
}

/// The listing of a cache directory that enumerates as `names`: the lines of
/// the artifacts, in the order of the enumeration, up to the first entry
/// that is fatal, and that entry's error.
pub open spec fn listing_of(names: Seq<Seq<char>>) -> ListingView {
    let cut = choose|cut: int| is_cut(names, cut);
    ListingView {
        lines: names.take(cut).filter_map(line_picker()),
        failure: if cut < names.len() {
            match entry_of(names[cut]) {
                Err(fatal) => Some(fatal),
                Ok(_) => None,
            }
        } else {
            None
        },
    }
}

/// A listing stops at one place only.
pub proof fn lemma_cut_is_unique(names: Seq<Seq<char>>, a: int, b: int)
    requires
        is_cut(names, a),
        is_cut(names, b),
    ensures
        a == b,
{
    if a < b {
        assert(entry_of(names[a]) is Ok);
    } else if b < a {
        assert(entry_of(names[b]) is Ok);
    }
}

/// Lists the cache directory that enumerates as `names`.
pub fn list_lines(names: &Vec<String>) -> (listing: Listing)
    ensures
        listing@ == listing_of(names.deep_view()),
{
    let ghost all = names.deep_view();
    let mut lines: Vec<String> = Vec::new();
    let mut failure: Option<Fatal> = None;
    let mut i: usize = 0;
    assert(all.take(0).filter_map(line_picker()) =~= Seq::<Seq<char>>::empty());
    while i < names.len() && failure.is_none()
        invariant
            all == names.deep_view(),
            0 <= i <= names.len(),
            failure is None ==> is_cut(all.take(i as int), i as int),
            failure is None ==> lines.deep_view() == all.take(i as int).filter_map(line_picker()),
            failure matches Some(fatal) ==> {
                &&& 0 < i
                &&& is_cut(all, i - 1)
                &&& entry_of(all[i - 1]) == Err::<Option<Seq<char>>, _>(fatal)
                &&& lines.deep_view() == all.take(i - 1).filter_map(line_picker())
            },
        decreases names.len() - i,
    {
        assert(all[i as int] == names@[i as int]@);
        let ghost before = lines.deep_view();
        proof {
            all.lemma_filter_map_take_succ(line_picker(), i as int);
            assert forall|j: int| 0 <= j < i implies #[trigger] entry_of(all[j]) is Ok by {
                assert(all.take(i as int)[j] == all[j]);
            }
        }
        match list_entry(names[i].as_str()) {
            Ok(Some(text)) => {
                lines.push(text);
                assert(lines.deep_view() =~= before + seq![entry_line(all[i as int])->0]);
            },
            Ok(None) => {},
            Err(fatal) => {
                failure = Some(fatal);
            },
        }
        i = i + 1;
        proof {
            if failure is None {
                assert forall|j: int| 0 <= j < i implies #[trigger] entry_of(all.take(i as int)[j])
                    is Ok by {
                    assert(all.take(i as int)[j] == all[j]);
                }
            }
        }
    }
    proof {
        let cut = if failure is None {
            i as int
        } else {
            i - 1
        };
        if failure is None {
            assert(all.take(i as int) =~= all);
        }
        assert(is_cut(all, cut));
        lemma_cut_is_unique(all, cut, choose|c: int| is_cut(all, c));
    }
    Listing { lines, failure }
}

/// The text of `lines` for the terminal: each line with a line break after
/// it.
pub open spec fn lines_text_of(lines: Seq<Seq<char>>) -> Seq<char>
    decreases lines.len(),
{
    if lines.len() == 0 {
        Seq::empty()
    } else {
        lines_text_of(lines.drop_last()) + lines.last() + seq!['\n']
    }
}

/// Joins `lines` into one text, with a line break after each.
pub fn lines_text(lines: &Vec<String>) -> (text: String)
    ensures
        text@ == lines_text_of(lines.deep_view()),
{
    let ghost all = lines.deep_view();
    let mut text = String::new();
    let mut i: usize = 0;
    proof {
        reveal_strlit("\n");
        assert(all.take(0) =~= Seq::<Seq<char>>::empty());
    }
    while i < lines.len()
        invariant
            all == lines.deep_view(),
            0 <= i <= lines.len(),
            "\n"@ == seq!['\n'],
            text@ == lines_text_of(all.take(i as int)),
        decreases lines.len() - i,
    {
        assert(all[i as int] == lines@[i as int]@);
        assert(all.take(i + 1).drop_last() =~= all.take(i as int));
        assert(all.take(i + 1).last() == all[i as int]);
        text.append(lines[i].as_str());
        text.append("\n");
        i = i + 1;
    }
    assert(all.take(i as int) =~= all);
    text
}

/// Where a `list` command stands between two pieces of outside work.
#[derive(Clone, Copy, Debug, PartialEq, Eq, Structural)]
pub enum ListState {
    /// The cache directory is being probed.
    ProbingDirectory,
    /// The cache directory is being enumerated.
    ReadingDirectory,
    /// The lines before a fatal entry are being printed; the error follows.
    Failing { fatal: Fatal },
    /// The action handed out with this state ends the command.
    Finished,
}

impl ListState {
    /// Whether the command ends with the action that came with this state.
    pub fn is_finished(&self) -> (finished: bool)
        ensures
            finished == (*self is Finished),
    {
        match self {
            ListState::Finished => true,
            _ => false,
        }
    }
}

/// The end of a command on a fatal error.
pub open spec fn list_abort(fatal: Fatal) -> (ListState, ActionView) {
    (ListState::Finished, ActionView::Abort { fatal })
}

/// How `list` starts: by asking whether the cache directory is there.
pub open spec fn list_begin_of() -> (ListState, ActionView) {
    (ListState::ProbingDirectory, ActionView::Probe { path: CACHE_DIR@ })
}

/// How `list` goes on from `state` when the host answers with `event`.
///
/// Without a cache directory the command says so on the error stream and
/// ends. Otherwise the directory is enumerated and the listing goes to
/// standard output, line by line; where an entry was fatal or the
/// enumeration broke off, the lines of the entries before that are still
/// printed and the error follows. A directory that cannot be opened is
/// fatal, and so is an answer that the pending action cannot give.
pub open spec fn list_step_of(state: ListState, event: EventView) -> (ListState, ActionView) {
    match state {
        ListState::ProbingDirectory => match event {
            EventView::Present { found } => if found {
                (ListState::ReadingDirectory, ActionView::ReadDirectory { path: CACHE_DIR@ })
            } else {
                (ListState::Finished, ActionView::Report { text: MISSING_DIRECTORY_TEXT@ })
            },
            _ => list_abort(Fatal::UnexpectedEvent),
        },
        ListState::ReadingDirectory => match event {
            EventView::Entries { names, complete } => {
                let listing = listing_of(names);
                (
                    match listing.failure {
                        Some(fatal) => ListState::Failing { fatal },
                        None => if complete {
                            ListState::Finished
                        } else {
                            ListState::Failing { fatal: Fatal::DirectoryRead }
                        },
                    },
                    ActionView::Print { text: lines_text_of(listing.lines) },
                )
            },
            EventView::Failed => list_abort(Fatal::DirectoryRead),
            _ => list_abort(Fatal::UnexpectedEvent),
        },
        ListState::Failing { fatal } => match event {
            EventView::Done => list_abort(fatal),
            _ => list_abort(Fatal::UnexpectedEvent),
        },
        ListState::Finished => (ListState::Finished, ActionView::Finish),
    }
}

/// Starts a `list` command.
pub fn list_begin() -> (next: (ListState, Action))
    ensures
        (next.0, next.1@) == list_begin_of(),
{
    (ListState::ProbingDirectory, Action::Probe { path: cache_dir() })
}

/// Decides the next action of a `list` command from the state it stands in
/// and the host's answer to the action before.
pub fn list_step(state: ListState, event: Event) -> (next: (ListState, Action))
    ensures
        (next.0, next.1@) == list_step_of(state, event@),
{
    match state {
        ListState::ProbingDirectory => match event {
            Event::Present { found } => {
                if found {
                    (ListState::ReadingDirectory, Action::ReadDirectory { path: cache_dir() })
                } else {
                    (ListState::Finished, Action::Report { text: missing_directory_text() })
                }
            },
            _ => (ListState::Finished, Action::Abort { fatal: Fatal::UnexpectedEvent }),
        },
        ListState::ReadingDirectory => match event {
            Event::Entries { names, complete } => {
                let listing = list_lines(&names);
                let text = lines_text(&listing.lines);
                match listing.failure {
                    Some(fatal) => (ListState::Failing { fatal }, Action::Print { text }),
                    None => {
                        if complete {
                            (ListState::Finished, Action::Print { text })
                        } else {
                            (
                                ListState::Failing { fatal: Fatal::DirectoryRead },
                                Action::Print { text },
                            )
                        }
                    },
                }
            },
            Event::Failed => (ListState::Finished, Action::Abort { fatal: Fatal::DirectoryRead }),
            _ => (ListState::Finished, Action::Abort { fatal: Fatal::UnexpectedEvent }),
        },
        ListState::Failing { fatal } => match event {
            Event::Done => (ListState::Finished, Action::Abort { fatal }),
            _ => (ListState::Finished, Action::Abort { fatal: Fatal::UnexpectedEvent }),
        },
        ListState::Finished => (ListState::Finished, Action::Finish),
    }
}

/// A cache directory that is missing gets the complaint on the error stream,
/// and one that holds no entry an empty listing: either way not one line
/// goes to standard output, and the command is over.
pub proof fn law_nothing_to_list()
    ensures
        list_step_of(list_begin_of().0, EventView::Present { found: false }) == (
            ListState::Finished,
            ActionView::Report { text: MISSING_DIRECTORY_TEXT@ },
        ),
        list_step_of(list_begin_of().0, EventView::Present { found: true }) == (
            ListState::ReadingDirectory,
            ActionView::ReadDirectory { path: CACHE_DIR@ },
        ),
        listing_of(Seq::empty()) == (ListingView { lines: Seq::empty(), failure: None }),
        list_step_of(ListState::ReadingDirectory, EventView::Entries { names: Seq::empty(), complete: true }) == (
            ListState::Finished,
            ActionView::Print { text: Seq::empty() },
        ),
{
    let none = Seq::<Seq<char>>::empty();
    assert(is_cut(none, 0));
    lemma_cut_is_unique(none, 0, choose|c: int| is_cut(none, c));
    assert(none.take(0) =~= none);
    assert(none.filter_map(line_picker()) =~= Seq::<Seq<char>>::empty());
}

/// Where every artifact of the enumeration `names` carries a stamp with a
/// UTC date-time, the listing fails on nothing and holds one line for each
/// artifact and none besides: the lines are the artifacts' lines in the
/// order of the enumeration, and so are as many as the artifacts.
pub proof fn law_one_line_for_each_artifact(names: Seq<Seq<char>>)
    requires
        forall|i: int| 0 <= i < names.len() ==> #[trigger] entry_of(names[i]) is Ok,
    ensures
        listing_of(names).failure is None,
        listing_of(names).lines == names.filter_map(line_picker()),
        listing_of(names).lines.len() == names.filter(|name: Seq<char>| is_artifact_name(name)).len(),
{
    let whole = names.len() as int;
    assert(is_cut(names, whole));
    lemma_cut_is_unique(names, whole, choose|c: int| is_cut(names, c));
    assert(names.take(whole) =~= names);
    lemma_lines_count(names);
}

/// Among entries that are not fatal, as many have a line as are artifacts.
proof fn lemma_lines_count(names: Seq<Seq<char>>)
    requires
        forall|i: int| 0 <= i < names.len() ==> #[trigger] entry_of(names[i]) is Ok,
    ensures
        names.filter_map(line_picker()).len() == names.filter(
            |name: Seq<char>| is_artifact_name(name),
        ).len(),
    decreases names.len(),
{
    reveal(Seq::filter);
    if names.len() > 0 {
        let rest = names.drop_last();
        assert forall|i: int| 0 <= i < rest.len() implies #[trigger] entry_of(rest[i]) is Ok by {
            assert(rest[i] == names[i]);
        }
        lemma_lines_count(rest);
        assert(entry_of(names[names.len() - 1]) is Ok);
    }
}

/// The line of an artifact reports the stamp that its name carries: it is
/// the UTC date-time of that stamp, written after [`STAMP_PATTERN`], then a
/// colon, a space and the name.
pub proof fn law_line_reports_the_stamp(name: Seq<char>, seconds: i64, moment: Seq<char>)
    requires
        is_artifact_name(name),
        parse_signed(artifact_stem(name)) == Some(seconds),
        utc_text(seconds, 0, STAMP_PATTERN@) == Some(moment),
    ensures
        entry_line(name) == Some(moment + seq![':', ' '] + name),
{
}

} // verus!
