use narma::differ::{diff_begin, diff_step, scan, DiffState, Scan, DIFF_TOOL};
use narma::host::{Action, Event, Fatal};
use narma::message::HELP_TEXT;

fn diff_words(items: &[&str]) -> Vec<String> {
    items.iter().map(|item| item.to_string()).collect()
}

fn output(stdout: &[u8]) -> Event {
    Event::Output { stdout: stdout.to_vec(), stderr: Vec::new() }
}

fn entries(items: &[&str]) -> Event {
    Event::Entries { names: diff_words(items), complete: true }
}

fn probe(name: &str) -> Action {
    Action::Probe { path: format!("./.narma-cache/{}", name) }
}

fn compare(first: &str, second: &str) -> Action {
    Action::Run {
        program: "diff".to_string(),
        arguments: vec![
            format!("./.narma-cache/{}", first),
            format!("./.narma-cache/{}", second),
        ],
    }
}

fn look(items: &[&str], own: &str) -> Scan {
    scan(&diff_words(items), &own.to_string())
}

#[test]
fn diff_tool_is_diff() {
    assert_eq!(DIFF_TOOL, "diff");
}

#[test]
fn scan_picks_the_newest_other_artifact() {
    assert_eq!(look(&["3.acir", "9.acir", "5.acir"], "3.acir"), Scan::Latest { index: 1 });
    assert_eq!(look(&["9.acir", "3.acir"], "3.acir"), Scan::Latest { index: 0 });
    assert_eq!(look(&["1.acir", "2.acir"], "7.acir"), Scan::Latest { index: 1 });
}

#[test]
fn scan_never_picks_the_artifact_that_asks() {
    assert_eq!(look(&["3.acir", "9.acir", "5.acir"], "9.acir"), Scan::Latest { index: 2 });
    assert_eq!(look(&["9.acir", "10.acir"], "10.acir"), Scan::Latest { index: 0 });
    assert_eq!(look(&["100.acir"], "100.acir"), Scan::Nothing);
    assert_eq!(look(&["100.acir", "100.acir"], "100.acir"), Scan::Nothing);
}

#[test]
fn scan_passes_over_other_entries() {
    assert_eq!(
        look(&["notes.txt", "3.acir", "99.bak", "zzz"], "1.acir"),
        Scan::Latest { index: 1 }
    );
    assert_eq!(look(&["notes.txt", "zzz"], "1.acir"), Scan::Nothing);
    assert_eq!(look(&["notes.txt", "1.acir", "zzz"], "1.acir"), Scan::Nothing);
    assert_eq!(look(&[], "1.acir"), Scan::Nothing);
}

#[test]
fn scan_keeps_the_first_of_equal_stamps() {
    assert_eq!(look(&["05.acir", "5.acir", "+5.acir"], "1.acir"), Scan::Latest { index: 0 });
    assert_eq!(look(&["2.acir", "5.acir", "05.acir"], "1.acir"), Scan::Latest { index: 1 });
    assert_eq!(look(&["5.acir", "05.acir", "+5.acir"], "5.acir"), Scan::Latest { index: 1 });
}

#[test]
fn scan_picks_stamp_zero_like_any_other() {
    assert_eq!(look(&["0.acir"], "5.acir"), Scan::Latest { index: 0 });
    assert_eq!(look(&["5.acir", "0.acir"], "5.acir"), Scan::Latest { index: 1 });
    assert_eq!(look(&["0.acir", "00.acir"], "0.acir"), Scan::Latest { index: 1 });
    assert_eq!(look(&["0.acir", "1.acir"], "7.acir"), Scan::Latest { index: 1 });
    assert_eq!(look(&["0.acir"], "0.acir"), Scan::Nothing);
}

#[test]
fn scan_fails_on_a_malformed_artifact_name() {
    assert_eq!(look(&["abc.acir"], "1.acir"), Scan::Malformed);
    assert_eq!(look(&["9.acir", "-5.acir"], "1.acir"), Scan::Malformed);
    assert_eq!(look(&[".acir", "9.acir"], "9.acir"), Scan::Malformed);
    assert_eq!(look(&["18446744073709551616.acir"], "1.acir"), Scan::Malformed);
    assert_eq!(look(&["abc.acir"], "abc.acir"), Scan::Malformed);
}

#[test]
fn scan_reads_the_greatest_stamp() {
    assert_eq!(
        look(&["18446744073709551614.acir", "18446744073709551615.acir"], "1.acir"),
        Scan::Latest { index: 1 }
    );
}

#[test]
fn diff_without_tokens_prints_help() {
    let (state, action) = diff_begin(Vec::new());
    assert_eq!(state, DiffState::Finished);
    assert!(state.is_finished());
    assert_eq!(action, Action::Report { text: HELP_TEXT.to_string() });
}

#[test]
fn diff_with_three_tokens_prints_help() {
    let (state, action) = diff_begin(diff_words(&["1", "2", "3"]));
    assert_eq!(state, DiffState::Finished);
    assert_eq!(action, Action::Report { text: HELP_TEXT.to_string() });
    let (state, action) = diff_begin(diff_words(&["x", "y", "z", "w"]));
    assert_eq!(state, DiffState::Finished);
    assert_eq!(action, Action::Report { text: HELP_TEXT.to_string() });
}

#[test]
fn diff_refuses_a_token_that_is_no_stamp() {
    assert_eq!(
        diff_begin(diff_words(&["abc"])),
        (DiffState::Finished, Action::Abort { fatal: Fatal::InvalidTimestamp })
    );
    assert_eq!(
        diff_begin(diff_words(&["-1", "2"])),
        (DiffState::Finished, Action::Abort { fatal: Fatal::InvalidTimestamp })
    );
}

#[test]
fn diff_one_stamp_missing_artifact() {
    let (state, action) = diff_begin(diff_words(&["1700000000"]));
    assert_eq!(state, DiffState::ProbingOnly { stamp: 1700000000 });
    assert!(!state.is_finished());
    assert_eq!(action, probe("1700000000.acir"));
    let (state, action) = diff_step(state, Event::Present { found: false });
    assert_eq!(state, DiffState::Finished);
    assert_eq!(
        action,
        Action::Report { text: "Error: ACIR file for timestamp 1700000000 not found.\n".to_string() }
    );
}

#[test]
fn diff_complaint_writes_the_stamp_not_the_token() {
    let (state, action) = diff_begin(diff_words(&["+007"]));
    assert_eq!(action, probe("7.acir"));
    let (_, action) = diff_step(state, Event::Present { found: false });
    assert_eq!(
        action,
        Action::Report { text: "Error: ACIR file for timestamp 7 not found.\n".to_string() }
    );
}

#[test]
fn diff_one_stamp_against_the_newest_other() {
    let (state, _) = diff_begin(diff_words(&["5"]));
    let (state, action) = diff_step(state, Event::Present { found: true });
    assert_eq!(state, DiffState::Scanning { stamp: 5 });
    assert_eq!(action, Action::ReadDirectory { path: "./.narma-cache".to_string() });
    let (state, action) = diff_step(state, entries(&["5.acir", "notes", "8.acir", "6.acir"]));
    assert_eq!(state, DiffState::Comparing { line_break: false });
    assert_eq!(action, compare("5.acir", "8.acir"));
    let (state, action) = diff_step(state, output(b"1c1\n< a\n---\n> b\n"));
    assert_eq!(state, DiffState::Finished);
    assert_eq!(action, Action::Print { text: "1c1\n< a\n---\n> b\n".to_string() });
}

#[test]
fn diff_one_stamp_alone_in_the_cache_runs_no_diff() {
    let (state, _) = diff_begin(diff_words(&["100"]));
    let (state, _) = diff_step(state, Event::Present { found: true });
    let (state, action) = diff_step(state, entries(&["100.acir"]));
    assert_eq!(state, DiffState::Finished);
    assert_eq!(action, Action::Finish);
}

#[test]
fn diff_newest_stamp_meets_the_one_before() {
    let (state, _) = diff_begin(diff_words(&["10"]));
    let (state, _) = diff_step(state, Event::Present { found: true });
    let (_, action) = diff_step(state, entries(&["9.acir", "10.acir"]));
    assert_eq!(action, compare("10.acir", "9.acir"));
}

#[test]
fn diff_one_stamp_meets_stamp_zero() {
    let (state, _) = diff_begin(diff_words(&["5"]));
    let (state, _) = diff_step(state, Event::Present { found: true });
    let (_, action) = diff_step(state, entries(&["5.acir", "0.acir"]));
    assert_eq!(action, compare("5.acir", "0.acir"));
}

#[test]
fn diff_one_stamp_passes_the_name_as_enumerated() {
    let (state, _) = diff_begin(diff_words(&["5"]));
    let (state, _) = diff_step(state, Event::Present { found: true });
    let (_, action) = diff_step(state, entries(&["5.acir", "0009.acir"]));
    assert_eq!(action, compare("5.acir", "0009.acir"));
}

#[test]
fn diff_one_stamp_without_other_artifact_is_silent() {
    let (state, _) = diff_begin(diff_words(&["0"]));
    let (state, _) = diff_step(state, Event::Present { found: true });
    let (state, action) = diff_step(state, entries(&["0.acir", "x", "notes.txt"]));
    assert_eq!(state, DiffState::Finished);
    assert_eq!(action, Action::Finish);
}

#[test]
fn diff_one_stamp_fails_on_malformed_entry() {
    let (state, _) = diff_begin(diff_words(&["5"]));
    let (state, _) = diff_step(state, Event::Present { found: true });
    let (state, action) = diff_step(state, entries(&["5.acir", "old.acir"]));
    assert_eq!(state, DiffState::Finished);
    assert_eq!(action, Action::Abort { fatal: Fatal::InvalidTimestamp });
}

#[test]
fn diff_one_stamp_fails_when_directory_cannot_be_read() {
    let (state, _) = diff_begin(diff_words(&["5"]));
    let (state, _) = diff_step(state, Event::Present { found: true });
    assert_eq!(
        diff_step(state, Event::Failed),
        (DiffState::Finished, Action::Abort { fatal: Fatal::DirectoryRead })
    );
}

#[test]
fn diff_one_stamp_fails_when_enumeration_breaks_off() {
    let broken = Event::Entries { names: diff_words(&["5.acir", "8.acir"]), complete: false };
    assert_eq!(
        diff_step(DiffState::Scanning { stamp: 5 }, broken),
        (DiffState::Finished, Action::Abort { fatal: Fatal::DirectoryRead })
    );
    let broken = Event::Entries { names: diff_words(&["5.acir"]), complete: false };
    assert_eq!(
        diff_step(DiffState::Scanning { stamp: 5 }, broken),
        (DiffState::Finished, Action::Abort { fatal: Fatal::DirectoryRead })
    );
    let broken = Event::Entries { names: diff_words(&["5.acir", "x.acir"]), complete: false };
    assert_eq!(
        diff_step(DiffState::Scanning { stamp: 5 }, broken),
        (DiffState::Finished, Action::Abort { fatal: Fatal::InvalidTimestamp })
    );
}

#[test]
fn diff_two_stamps_in_order() {
    let (state, action) = diff_begin(diff_words(&["20", "10"]));
    assert_eq!(state, DiffState::ProbingFirst { stamp: 20, token: "10".to_string() });
    assert_eq!(action, probe("20.acir"));
    let (state, action) = diff_step(state, Event::Present { found: true });
    assert_eq!(state, DiffState::ProbingSecond { first: 20, second: 10 });
    assert_eq!(action, probe("10.acir"));
    let (state, action) = diff_step(state, Event::Present { found: true });
    assert_eq!(state, DiffState::Comparing { line_break: true });
    assert_eq!(action, compare("20.acir", "10.acir"));
    let (state, action) = diff_step(state, output(b"2d1\n< x\n"));
    assert_eq!(state, DiffState::Finished);
    assert_eq!(action, Action::Print { text: "2d1\n< x\n\n".to_string() });
}

#[test]
fn diff_two_equal_stamps_are_compared_as_asked() {
    let (state, _) = diff_begin(diff_words(&["7", "7"]));
    let (state, _) = diff_step(state, Event::Present { found: true });
    let (_, action) = diff_step(state, Event::Present { found: true });
    assert_eq!(action, compare("7.acir", "7.acir"));
}

#[test]
fn diff_two_stamps_first_missing() {
    let (state, _) = diff_begin(diff_words(&["20", "10"]));
    let (state, action) = diff_step(state, Event::Present { found: false });
    assert_eq!(state, DiffState::Finished);
    assert_eq!(
        action,
        Action::Report { text: "Error: ACIR file for timestamp 20 not found.\n".to_string() }
    );
}

#[test]
fn diff_two_stamps_second_missing() {
    let (state, _) = diff_begin(diff_words(&["20", "10"]));
    let (state, _) = diff_step(state, Event::Present { found: true });
    let (state, action) = diff_step(state, Event::Present { found: false });
    assert_eq!(state, DiffState::Finished);
    assert_eq!(
        action,
        Action::Report { text: "Error: ACIR file for timestamp 10 not found.\n".to_string() }
    );
}

#[test]
fn diff_second_token_is_read_after_the_first_probe() {
    let (state, action) = diff_begin(diff_words(&["20", "junk"]));
    assert_eq!(action, probe("20.acir"));
    let (_, action) = diff_step(state, Event::Present { found: false });
    assert_eq!(
        action,
        Action::Report { text: "Error: ACIR file for timestamp 20 not found.\n".to_string() }
    );
    let (state, _) = diff_begin(diff_words(&["20", "junk"]));
    assert_eq!(
        diff_step(state, Event::Present { found: true }),
        (DiffState::Finished, Action::Abort { fatal: Fatal::InvalidTimestamp })
    );
}

#[test]
fn diff_of_equal_artifacts_prints_no_difference() {
    let (state, action) = diff_step(DiffState::Comparing { line_break: false }, output(b""));
    assert_eq!(state, DiffState::Finished);
    assert_eq!(action, Action::Print { text: String::new() });
    let (_, action) = diff_step(DiffState::Comparing { line_break: true }, output(b""));
    assert_eq!(action, Action::Print { text: "\n".to_string() });
}

#[test]
fn diff_ignores_the_tool_error_stream() {
    let event = Event::Output { stdout: b"same".to_vec(), stderr: vec![0xff, 0xfe] };
    let (_, action) = diff_step(DiffState::Comparing { line_break: false }, event);
    assert_eq!(action, Action::Print { text: "same".to_string() });
}

#[test]
fn diff_fails_on_malformed_tool_output() {
    assert_eq!(
        diff_step(DiffState::Comparing { line_break: true }, output(&[0x80])),
        (DiffState::Finished, Action::Abort { fatal: Fatal::InvalidUtf8 })
    );
}

#[test]
fn diff_fails_when_the_tool_cannot_start() {
    assert_eq!(
        diff_step(DiffState::Comparing { line_break: true }, Event::Failed),
        (DiffState::Finished, Action::Abort { fatal: Fatal::Spawn })
    );
}

#[test]
fn diff_refuses_answers_out_of_turn() {
    let unexpected = (DiffState::Finished, Action::Abort { fatal: Fatal::UnexpectedEvent });
    assert_eq!(diff_step(DiffState::ProbingOnly { stamp: 1 }, Event::Done), unexpected);
    assert_eq!(diff_step(DiffState::ProbingOnly { stamp: 1 }, Event::Failed), unexpected);
    assert_eq!(
        diff_step(DiffState::Scanning { stamp: 1 }, Event::Present { found: true }),
        unexpected
    );
    assert_eq!(
        diff_step(DiffState::ProbingFirst { stamp: 1, token: "2".to_string() }, Event::Done),
        unexpected
    );
    assert_eq!(
        diff_step(DiffState::ProbingSecond { first: 1, second: 2 }, Event::Time { seconds: 3 }),
        unexpected
    );
    assert_eq!(
        diff_step(DiffState::Comparing { line_break: false }, Event::Present { found: true }),
        unexpected
    );
}

#[test]
fn diff_stays_finished() {
    assert_eq!(diff_step(DiffState::Finished, Event::Done), (DiffState::Finished, Action::Finish));
    assert_eq!(
        diff_step(DiffState::Finished, Event::Present { found: true }),
        (DiffState::Finished, Action::Finish)
    );
}

#[test]
fn diff_finds_what_cache_stored() {
    let stored = narma::store::store_step(
        narma::store::StoreState::ReadingClock { stdout: b"x".to_vec(), stderr: Vec::new() },
        Event::Time { seconds: 1700000123 },
    );
    let (_, asked) = diff_begin(diff_words(&["1700000123"]));
    match (stored.1, asked) {
        (Action::WriteFile { path: written, .. }, Action::Probe { path: probed }) => {
            assert_eq!(written, probed);
            assert_eq!(written, "./.narma-cache/1700000123.acir");
        }
        _ => panic!("cache writes a file and diff probes one"),
    }
}
