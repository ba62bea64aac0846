use kiroku_tui::config::Config;
use kiroku_tui::errors::{IoKind, KirokuError};
use kiroku_tui::events::{
    change_matters, poll_step, polled_event, AppEvent, ChangeKind, KeyCode, KeyEvent, PollStep,
    Polled,
};
use kiroku_tui::ops::{
    already_exists, blank, check_target, commit_message, document_name_of, editor_command, editor_result,
    folder_target_of, note_target_of, rename_target_of, sync_step, SyncEvent, SyncState, SyncStep,
};

#[test]
fn document_names_are_made_safe() {
    assert_eq!(document_name_of("My Note"), "My_Note.md");
    assert_eq!(document_name_of("  spaced  out  "), "spaced__out.md");
    assert_eq!(document_name_of("done.md"), "done.md");
    assert_eq!(document_name_of("done.md "), "done.md");
    assert_eq!(document_name_of("a.MD"), "a.MD.md");
    assert_eq!(document_name_of("md"), "md.md");
    assert_eq!(document_name_of(""), ".md");
    assert_eq!(document_name_of("tab\there"), "tab\there.md");
}

#[test]
fn the_commit_message_is_fixed() {
    assert_eq!(commit_message(), "auto-sync from kiroku");
}

#[test]
fn blank_names() {
    assert!(blank(""));
    assert!(blank(" \t\n"));
    assert!(!blank(" a "));
}

#[test]
fn targets_of_new_entries() {
    assert_eq!(note_target_of("/n", "work/project a"), "/n/work/project_a.md");
    assert_eq!(note_target_of("/n/sub", "x"), "/n/sub/x.md");
    assert_eq!(note_target_of("/n", "/abs/x"), "/abs/x.md");
    assert_eq!(folder_target_of("/n", " new folder "), "/n/new_folder");
    assert_eq!(folder_target_of("/n", "a/b"), "/n/a/b");
}

#[test]
fn targets_of_renamed_entries() {
    assert_eq!(rename_target_of("/n/work/a.md", "b"), Some("/n/work/b.md".to_string()));
    assert_eq!(rename_target_of("/n/work/a.md", "../b"), Some("/n/work/../b.md".to_string()));
    assert_eq!(rename_target_of("a.md", "b"), Some("b.md".to_string()));
    assert_eq!(rename_target_of("/", "b"), None);
    assert_eq!(rename_target_of("", "b"), None);
}

#[test]
fn failures_say_what_went_wrong() {
    assert_eq!(KirokuError::Io(IoKind::Other, "disk full".to_string()).message(), "IO error: disk full");
    assert_eq!(KirokuError::Git("push failed".to_string()).message(), "Git error: push failed");
    assert_eq!(KirokuError::Env("no editor".to_string()).message(), "Environment error: no editor");
    assert_eq!(already_exists(false), KirokuError::Io(IoKind::AlreadyExists, "File already exists".to_string()));
    assert_eq!(already_exists(true), KirokuError::Io(IoKind::AlreadyExists, "Folder already exists".to_string()));
    let e = KirokuError::Git("x".to_string());
    assert_eq!(e.duplicate(), e);
}

#[test]
fn the_editor_is_chosen_in_order_of_preference() {
    assert_eq!(editor_command(Some("code --wait"), Some("nano")), "code --wait");
    assert_eq!(editor_command(None, Some("nano")), "nano");
    assert_eq!(editor_command(None, None), "vim");
    assert_eq!(editor_result(true), Ok(()));
    assert_eq!(
        editor_result(false),
        Err(KirokuError::Env("Editor exited with non-zero status".to_string()))
    );
}

fn run(events: Vec<SyncEvent>) -> (Vec<SyncStep>, SyncState) {
    let mut state = SyncState::Idle;
    let mut steps = Vec::new();
    for e in events {
        let (next, step) = sync_step(state, e);
        state = next;
        steps.push(step);
    }
    (steps, state)
}

fn done(text: &str) -> SyncStep {
    SyncStep::Done(Ok(text.to_string()))
}

fn failed(text: &str) -> SyncStep {
    SyncStep::Done(Err(KirokuError::Git(text.to_string())))
}

#[test]
fn sync_with_changes_stages_commits_and_pushes() {
    let (steps, state) = run(vec![
        SyncEvent::Start,
        SyncEvent::Repository(true),
        SyncEvent::Output(true),
        SyncEvent::Output(false),
        SyncEvent::Exit(true),
        SyncEvent::Exit(false),
        SyncEvent::Output(true),
        SyncEvent::Exit(true),
    ]);
    assert_eq!(
        steps,
        vec![
            SyncStep::CheckRepository,
            SyncStep::QueryChanges,
            SyncStep::QueryAhead,
            SyncStep::StageAll,
            SyncStep::Commit,
            SyncStep::QueryUnpushed,
            SyncStep::Push,
            done("synced!"),
        ]
    );
    assert_eq!(state, SyncState::Idle);
}

#[test]
fn sync_with_nothing_to_do() {
    let (steps, state) = run(vec![
        SyncEvent::Start,
        SyncEvent::Repository(true),
        SyncEvent::Output(false),
        SyncEvent::Output(false),
    ]);
    assert_eq!(steps.last(), Some(&done("already up to date")));
    assert_eq!(state, SyncState::Idle);
}

#[test]
fn sync_that_is_only_ahead_pushes_without_committing() {
    let (mut steps, _) = run(vec![
        SyncEvent::Start,
        SyncEvent::Repository(true),
        SyncEvent::Output(false),
        SyncEvent::Output(true),
        SyncEvent::Output(true),
        SyncEvent::Exit(false),
    ]);
    let tail = steps.split_off(3);
    assert_eq!(tail, vec![SyncStep::QueryUnpushed, SyncStep::Push, failed("push failed")]);
}

#[test]
fn sync_without_upstream_stays_local() {
    let (steps, _) = run(vec![
        SyncEvent::Start,
        SyncEvent::Repository(true),
        SyncEvent::Output(true),
        SyncEvent::Output(false),
        SyncEvent::Exit(true),
        SyncEvent::Exit(true),
        SyncEvent::Output(false),
    ]);
    assert_eq!(
        steps.last(),
        Some(&done("synced locally (no remote configured or no push needed)"))
    );
}

#[test]
fn sync_failures() {
    let (steps, state) = run(vec![SyncEvent::Start, SyncEvent::Repository(false)]);
    assert_eq!(steps.last(), Some(&failed("not a git repo (run 'git init' in folder)")));
    assert_eq!(state, SyncState::Idle);

    let (steps, _) = run(vec![
        SyncEvent::Start,
        SyncEvent::Repository(true),
        SyncEvent::Output(true),
        SyncEvent::Output(true),
        SyncEvent::Exit(false),
    ]);
    assert_eq!(steps.last(), Some(&failed("git add failed")));

    let (steps, state) = run(vec![
        SyncEvent::Start,
        SyncEvent::Repository(true),
        SyncEvent::Failed(IoKind::NotFound, "No such file or directory".to_string()),
    ]);
    assert_eq!(
        steps.last(),
        Some(&SyncStep::Done(Err(KirokuError::Io(IoKind::NotFound, "No such file or directory".to_string()))))
    );
    assert_eq!(state, SyncState::Idle);
}

#[test]
fn sync_repeats_a_question_that_was_not_answered() {
    let (state, step) = sync_step(SyncState::QueryingChanges, SyncEvent::Exit(true));
    assert_eq!((state, step), (SyncState::QueryingChanges, SyncStep::QueryChanges));
    let (state, step) = sync_step(SyncState::Pushing, SyncEvent::Output(true));
    assert_eq!((state, step), (SyncState::Pushing, SyncStep::Push));
    let (state, step) = sync_step(SyncState::Idle, SyncEvent::Exit(true));
    assert_eq!((state, step), (SyncState::CheckingRepository, SyncStep::CheckRepository));
    let (state, step) =
        sync_step(SyncState::QueryingAhead { has_changes: true }, SyncEvent::Repository(true));
    assert_eq!((state, step), (SyncState::QueryingAhead { has_changes: true }, SyncStep::QueryAhead));
}

#[test]
fn the_poller_leaves_the_terminal_alone_while_paused() {
    assert_eq!(poll_step(true), PollStep::Sleep);
    assert_eq!(poll_step(false), PollStep::Poll);
}

#[test]
fn poll_results_become_events() {
    let k = KeyEvent { code: KeyCode::Enter, control: false };
    assert_eq!(polled_event(Polled::Timeout), Some(AppEvent::Tick));
    assert_eq!(polled_event(Polled::Key(k)), Some(AppEvent::Input(k)));
    assert_eq!(polled_event(Polled::Ignored), None);
}

#[test]
fn only_changes_to_files_matter() {
    assert!(change_matters(ChangeKind::Create));
    assert!(change_matters(ChangeKind::Modify));
    assert!(change_matters(ChangeKind::Remove));
    assert!(!change_matters(ChangeKind::Access));
    assert!(!change_matters(ChangeKind::Other));
}

#[test]
fn default_settings() {
    let c = Config::default();
    assert_eq!(c.editor_cmd, None);
    assert_eq!(c.auto_sync, Some(false));
    assert_eq!(c.theme, None);
    assert_eq!(c.sort_mode, Some("Date".to_string()));
    assert_eq!(c.duplicate(), c);
}

#[test]
fn nothing_is_overwritten() {
    assert_eq!(check_target(false, false), Ok(()));
    assert_eq!(check_target(false, true), Ok(()));
    assert_eq!(
        check_target(true, false),
        Err(KirokuError::Io(IoKind::AlreadyExists, "File already exists".to_string()))
    );
    assert_eq!(
        check_target(true, true),
        Err(KirokuError::Io(IoKind::AlreadyExists, "Folder already exists".to_string()))
    );
}
