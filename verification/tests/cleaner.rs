use narma::cleaner::{clean_begin, clean_step, CleanState};
use narma::host::{Action, Event, Fatal};

#[test]
fn clean_without_directory() {
    let (state, action) = clean_begin();
    assert_eq!(state, CleanState::ProbingDirectory);
    assert!(!state.is_finished());
    assert_eq!(action, Action::Probe { path: "./.narma-cache".to_string() });
    let (state, action) = clean_step(state, Event::Present { found: false });
    assert_eq!(state, CleanState::Finished);
    assert!(state.is_finished());
    assert_eq!(action, Action::Report { text: "Cache directory not found.\n".to_string() });
}

#[test]
fn clean_removes_then_creates() {
    let (state, _) = clean_begin();
    let (state, action) = clean_step(state, Event::Present { found: true });
    assert_eq!(state, CleanState::Removing);
    assert_eq!(action, Action::RemoveDirectory { path: "./.narma-cache".to_string() });
    let (state, action) = clean_step(state, Event::Done);
    assert_eq!(state, CleanState::Creating);
    assert_eq!(action, Action::CreateDirectory { path: "./.narma-cache".to_string() });
    let (state, action) = clean_step(state, Event::Done);
    assert_eq!((state, action), (CleanState::Finished, Action::Finish));
}

#[test]
fn clean_fails_when_directory_cannot_be_removed() {
    assert_eq!(
        clean_step(CleanState::Removing, Event::Failed),
        (CleanState::Finished, Action::Abort { fatal: Fatal::DirectoryRemove })
    );
}

#[test]
fn clean_fails_when_directory_cannot_be_created() {
    assert_eq!(
        clean_step(CleanState::Creating, Event::Failed),
        (CleanState::Finished, Action::Abort { fatal: Fatal::DirectoryCreate })
    );
    assert_eq!(
        clean_step(CleanState::Creating, Event::Present { found: true }),
        (CleanState::Finished, Action::Abort { fatal: Fatal::DirectoryCreate })
    );
}

#[test]
fn clean_refuses_answers_out_of_turn() {
    let unexpected = (CleanState::Finished, Action::Abort { fatal: Fatal::UnexpectedEvent });
    assert_eq!(clean_step(CleanState::ProbingDirectory, Event::Done), unexpected);
    assert_eq!(clean_step(CleanState::Removing, Event::Present { found: true }), unexpected);
    assert_eq!(clean_step(CleanState::Creating, Event::Present { found: false }), unexpected);
    assert_eq!(clean_step(CleanState::Creating, Event::Time { seconds: 1 }), unexpected);
}

#[test]
fn clean_stays_finished() {
    assert_eq!(
        clean_step(CleanState::Finished, Event::Done),
        (CleanState::Finished, Action::Finish)
    );
}
