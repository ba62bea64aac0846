//! Planning the operations that change the document tree, and the steps of
//! a synchronisation.
//!
//! Nothing here touches the disk or runs a program. The functions say where
//! a new entry goes and what a synchronisation does next; the caller
//! creates, moves and runs, and reports back.

use vstd::prelude::*;
use vstd::string::StringExecFns;
use crate::errors::{ErrorView, IoKind, KirokuError};
use crate::paths::{join_path, joined_path, parent_of, parent_path};
use crate::text::{
    chars_of, concat, ends_with, has_suffix, replace_spaces, spaces_to_underscores, string_of,
    trim, trimmed,
};

verus! {

/// The suffix of a document's file name.
pub open spec fn document_suffix() -> Seq<char> {
    seq!['.', 'm', 'd']
}

/// A typed name made safe for the file system: without white space at its
/// ends and with underscores for spaces.
pub open spec fn safe_name(name: Seq<char>) -> Seq<char> {
    spaces_to_underscores(trimmed(name))
}

/// The file name of the document that a typed name asks for: the safe name,
/// with the document suffix added unless it is there already.
pub open spec fn document_name(name: Seq<char>) -> Seq<char> {
    if has_suffix(safe_name(name), document_suffix()) {
        safe_name(name)
    } else {
        safe_name(name) + document_suffix()
    }
}

/// Whether a typed name is blank: empty once the white space at its ends is
/// removed.
pub open spec fn is_blank(name: Seq<char>) -> bool {
    trimmed(name).len() == 0
}

/// Tests whether a typed name is blank.
pub fn blank(name: &str) -> (r: bool)
    ensures
        r == is_blank(name@),
{
    trim(&chars_of(name)).len() == 0
}

fn safe_chars(name: &str) -> (r: Vec<char>)
    ensures
        r@ == safe_name(name@),
{
    replace_spaces(&trim(&chars_of(name)))
}

/// Computes [`document_name`].
pub fn document_name_of(name: &str) -> (r: String)
    ensures
        r@ == document_name(name@),
{
    let safe = safe_chars(name);
    let mut suffix: Vec<char> = Vec::new();
    suffix.push('.');
    suffix.push('m');
    suffix.push('d');
    assert(suffix@ =~= document_suffix());
    if ends_with(&safe, &suffix) {
        string_of(&safe)
    } else {
        string_of(&concat(&safe, &suffix))
    }
}

/// Where the document that a typed name asks for goes: its file name,
/// resolved against the directory. A name with separators in it leads
/// into folders below the directory.
pub open spec fn note_target(dir: Seq<char>, name: Seq<char>) -> Seq<char> {
    joined_path(dir, document_name(name))
}

/// Computes [`note_target`].
pub fn note_target_of(dir: &str, name: &str) -> (r: String)
    ensures
        r@ == note_target(dir@, name@),
{
    join_path(dir, document_name_of(name).as_str())
}

/// Where the folder that a typed name asks for goes.
pub open spec fn folder_target(dir: Seq<char>, name: Seq<char>) -> Seq<char> {
    joined_path(dir, safe_name(name))
}

/// Computes [`folder_target`].
pub fn folder_target_of(dir: &str, name: &str) -> (r: String)
    ensures
        r@ == folder_target(dir@, name@),
{
    join_path(dir, string_of(&safe_chars(name)).as_str())
}

/// Where an entry goes when it is renamed: the new name, made a document
/// name, resolved against the folder that holds the entry now. The new name
/// may lead upwards with `..`. There is no target where the entry's path
/// has no names.
pub open spec fn rename_target(old_path: Seq<char>, name: Seq<char>) -> Option<Seq<char>> {
    match parent_of(old_path) {
        Some(parent) => Some(joined_path(parent, document_name(name))),
        None => None,
    }
}

/// Computes [`rename_target`].
pub fn rename_target_of(old_path: &str, name: &str) -> (r: Option<String>)
    ensures
        match r {
            Some(t) => rename_target(old_path@, name@) == Some(t@),
            None => rename_target(old_path@, name@) is None,
        },
{
    match parent_path(old_path) {
        Some(parent) => Some(join_path(parent.as_str(), document_name_of(name).as_str())),
        None => None,
    }
}

/// The failure reported where an entry to rename has no folder above it.
pub open spec fn no_parent_error() -> ErrorView {
    ErrorView::Env("Could not determine parent directory"@)
}

/// The failure reported where the target of a creation or a move exists
/// already.
pub open spec fn exists_error(folder: bool) -> ErrorView {
    ErrorView::Io(
        IoKind::AlreadyExists,
        if folder {
            "Folder already exists"@
        } else {
            "File already exists"@
        },
    )
}

/// Whether a creation or a move may go ahead: it is refused, and nothing
/// is overwritten, where something exists at the target already.
pub open spec fn target_free(exists: bool, folder: bool) -> Result<(), ErrorView> {
    if exists {
        Err(exists_error(folder))
    } else {
        Ok(())
    }
}

/// Decides whether a creation or a move may go ahead, from whether
/// something exists at the target.
pub fn check_target(exists: bool, folder: bool) -> (r: Result<(), KirokuError>)
    ensures
        match r {
            Ok(_) => target_free(exists, folder) is Ok,
            Err(e) => target_free(exists, folder) == Err::<(), ErrorView>(e@),
        },
{
    if exists {
        Err(already_exists(folder))
    } else {
        Ok(())
    }
}

/// Builds the failure for a target that exists already.
pub fn already_exists(folder: bool) -> (r: KirokuError)
    ensures
        r@ == exists_error(folder),
{
    if folder {
        KirokuError::Io(IoKind::AlreadyExists, String::from_str("Folder already exists"))
    } else {
        KirokuError::Io(IoKind::AlreadyExists, String::from_str("File already exists"))
    }
}

/// The editor to run: the configured command, else the one the environment
/// names, else `vim`.
pub open spec fn editor_choice(configured: Option<Seq<char>>, environment: Option<Seq<char>>) -> Seq<
    char,
> {
    match configured {
        Some(c) => c,
        None => match environment {
            Some(e) => e,
            None => "vim"@,
        },
    }
}

/// Chooses the editor to run.
pub fn editor_command(configured: Option<&str>, environment: Option<&str>) -> (r: String)
    ensures
        r@ == editor_choice(
            match configured {
                Some(c) => Some(c@),
                None => None,
            },
            match environment {
                Some(e) => Some(e@),
                None => None,
            },
        ),
{
    match configured {
        Some(c) => String::from_str(c),
        None => match environment {
            Some(e) => String::from_str(e),
            None => String::from_str("vim"),
        },
    }
}

/// What comes of an editor run that ended: a failure where the editor
/// reported one by its exit status.
pub fn editor_result(success: bool) -> (r: Result<(), KirokuError>)
    ensures
        match r {
            Ok(_) => success,
            Err(e) => !success && e@ == ErrorView::Env("Editor exited with non-zero status"@),
        },
{
    if success {
        Ok(())
    } else {
        Err(KirokuError::Env(String::from_str("Editor exited with non-zero status")))
    }
}

/// Where a synchronisation stands.
#[derive(Debug, Clone, Copy, PartialEq, Eq, Structural)]
pub enum SyncState {
    /// Not started.
    Idle,
    /// Asked whether the root is a repository.
    CheckingRepository,
    /// Asked for the local changes.
    QueryingChanges,
    /// Asked whether local history is ahead of upstream; remembers whether
    /// there are local changes.
    QueryingAhead { has_changes: bool },
    /// Staging all changes.
    Staging,
    /// Committing.
    Committing,
    /// Asked whether anything is left to push.
    QueryingPush,
    /// Pushing.
    Pushing,
}

/// What the caller found out for the synchronisation.
#[derive(Debug, Clone, PartialEq)]
pub enum SyncEvent {
    /// The synchronisation is asked for.
    Start,
    /// Whether the root holds a repository.
    Repository(bool),
    /// A query ran; whether it printed anything.
    Output(bool),
    /// A command ran; whether it succeeded.
    Exit(bool),
    /// The client could not be run at all; the kind and the text say why.
    Failed(IoKind, String),
}

/// The mathematical content of a [`SyncEvent`].
#[verifier::ext_equal]
pub enum SyncEventView {
    Start,
    Repository(bool),
    Output(bool),
    Exit(bool),
    Failed(IoKind, Seq<char>),
}

impl View for SyncEvent {
    type V = SyncEventView;

    open spec fn view(&self) -> SyncEventView {
        match self {
            SyncEvent::Start => SyncEventView::Start,
            SyncEvent::Repository(b) => SyncEventView::Repository(*b),
            SyncEvent::Output(b) => SyncEventView::Output(*b),
            SyncEvent::Exit(b) => SyncEventView::Exit(*b),
            SyncEvent::Failed(k, m) => SyncEventView::Failed(*k, m@),
        }
    }
}

/// What the caller does next for the synchronisation.
#[derive(Debug, PartialEq)]
pub enum SyncStep {
    /// Find out whether the root holds a repository.
    CheckRepository,
    /// Query the local changes.
    QueryChanges,
    /// Query whether local history is ahead of upstream.
    QueryAhead,
    /// Stage all changes.
    StageAll,
    /// Commit with the fixed message.
    Commit,
    /// Query whether anything is left to push.
    QueryUnpushed,
    /// Push.
    Push,
    /// The synchronisation is over, with this outcome.
    Done(Result<String, KirokuError>),
}

/// The mathematical content of a [`SyncStep`].
#[verifier::ext_equal]
pub enum SyncStepView {
    CheckRepository,
    QueryChanges,
    QueryAhead,
    StageAll,
    Commit,
    QueryUnpushed,
    Push,
    Done(Result<Seq<char>, ErrorView>),
}

impl View for SyncStep {
    type V = SyncStepView;

    open spec fn view(&self) -> SyncStepView {
        match self {
            SyncStep::CheckRepository => SyncStepView::CheckRepository,
            SyncStep::QueryChanges => SyncStepView::QueryChanges,
            SyncStep::QueryAhead => SyncStepView::QueryAhead,
            SyncStep::StageAll => SyncStepView::StageAll,
            SyncStep::Commit => SyncStepView::Commit,
            SyncStep::QueryUnpushed => SyncStepView::QueryUnpushed,
            SyncStep::Push => SyncStepView::Push,
            SyncStep::Done(r) => SyncStepView::Done(
                match r {
                    Ok(m) => Ok(m@),
                    Err(e) => Err(e@),
                },
            ),
        }
    }
}

/// The message of the commit that a synchronisation makes.
pub fn commit_message() -> (r: &'static str)
    ensures
        r@ == "auto-sync from kiroku"@,
{
    "auto-sync from kiroku"
}

/// The outcome that ends a synchronisation with a failure of the client.
pub open spec fn sync_failure(text: Seq<char>) -> SyncStepView {
    SyncStepView::Done(Err(ErrorView::Git(text)))
}

/// The outcome that ends a synchronisation well.
pub open spec fn sync_success(text: Seq<char>) -> SyncStepView {
    SyncStepView::Done(Ok(text))
}

/// One step of a synchronisation: from where it stands and what the caller
/// found out, to where it stands then and what the caller does next.
///
/// The steps run in this order: is there a repository; are there local
/// changes; is local history ahead of upstream; if neither, nothing is to
/// do; if there are changes, stage and commit them; ask whether anything is
/// left to push, and push if so. A client that cannot be run, a
/// missing repository, a failed staging and a failed push each end the
/// synchronisation with their own message. When it is over it stands where
/// it began, and any event starts it again. An event that does not answer
/// what was asked is ignored: the question is put again.
pub open spec fn sync_after(state: SyncState, event: SyncEventView) -> (SyncState, SyncStepView) {
    match (state, event) {
        (SyncState::Idle, _) => (SyncState::CheckingRepository, SyncStepView::CheckRepository),
        (_, SyncEventView::Failed(kind, text)) => (
            SyncState::Idle,
            SyncStepView::Done(Err(ErrorView::Io(kind, text))),
        ),
        (SyncState::CheckingRepository, SyncEventView::Repository(found)) => if found {
            (SyncState::QueryingChanges, SyncStepView::QueryChanges)
        } else {
            (SyncState::Idle, sync_failure("not a git repo (run 'git init' in folder)"@))
        },
        (SyncState::CheckingRepository, _) => (
            SyncState::CheckingRepository,
            SyncStepView::CheckRepository,
        ),
        (SyncState::QueryingChanges, SyncEventView::Output(any)) => (
            SyncState::QueryingAhead { has_changes: any },
            SyncStepView::QueryAhead,
        ),
        (SyncState::QueryingChanges, _) => (SyncState::QueryingChanges, SyncStepView::QueryChanges),
        (SyncState::QueryingAhead { has_changes }, SyncEventView::Output(ahead)) => if !has_changes
            && !ahead {
            (SyncState::Idle, sync_success("already up to date"@))
        } else if has_changes {
            (SyncState::Staging, SyncStepView::StageAll)
        } else {
            (SyncState::QueryingPush, SyncStepView::QueryUnpushed)
        },
        (SyncState::QueryingAhead { has_changes }, _) => (
            SyncState::QueryingAhead { has_changes },
            SyncStepView::QueryAhead,
        ),
        (SyncState::Staging, SyncEventView::Exit(ok)) => if ok {
            (SyncState::Committing, SyncStepView::Commit)
        } else {
            (SyncState::Idle, sync_failure("git add failed"@))
        },
        (SyncState::Staging, _) => (SyncState::Staging, SyncStepView::StageAll),
        (SyncState::Committing, SyncEventView::Exit(_)) => (
            SyncState::QueryingPush,
            SyncStepView::QueryUnpushed,
        ),
        (SyncState::Committing, _) => (SyncState::Committing, SyncStepView::Commit),
        (SyncState::QueryingPush, SyncEventView::Output(ahead)) => if ahead {
            (SyncState::Pushing, SyncStepView::Push)
        } else {
            (
                SyncState::Idle,
                sync_success("synced locally (no remote configured or no push needed)"@),
            )
        },
        (SyncState::QueryingPush, _) => (SyncState::QueryingPush, SyncStepView::QueryUnpushed),
        (SyncState::Pushing, SyncEventView::Exit(ok)) => if ok {
            (SyncState::Idle, sync_success("synced!"@))
        } else {
            (SyncState::Idle, sync_failure("push failed"@))
        },
        (SyncState::Pushing, _) => (SyncState::Pushing, SyncStepView::Push),
    }
}

fn git_failure(text: &str) -> (r: SyncStep)
    ensures
        r@ == sync_failure(text@),
{
    SyncStep::Done(Err(KirokuError::Git(String::from_str(text))))
}

fn git_success(text: &str) -> (r: SyncStep)
    ensures
        r@ == sync_success(text@),
{
    SyncStep::Done(Ok(String::from_str(text)))
}

/// Takes one step of a synchronisation.
pub fn sync_step(state: SyncState, event: SyncEvent) -> (r: (SyncState, SyncStep))
    ensures
        (r.0, r.1@) == sync_after(state, event@),
{
    match state {
        SyncState::Idle => {
            return (SyncState::CheckingRepository, SyncStep::CheckRepository);
        },
        _ => {},
    }
    match event {
        SyncEvent::Failed(kind, text) => {
            return (SyncState::Idle, SyncStep::Done(Err(KirokuError::Io(kind, text))));
        },
        _ => {},
    }
    match state {
        SyncState::Idle => (SyncState::CheckingRepository, SyncStep::CheckRepository),
        SyncState::CheckingRepository => match event {
            SyncEvent::Repository(found) => if found {
                (SyncState::QueryingChanges, SyncStep::QueryChanges)
            } else {
                (SyncState::Idle, git_failure("not a git repo (run 'git init' in folder)"))
            },
            _ => (SyncState::CheckingRepository, SyncStep::CheckRepository),
        },
        SyncState::QueryingChanges => match event {
            SyncEvent::Output(any) => (
                SyncState::QueryingAhead { has_changes: any },
                SyncStep::QueryAhead,
            ),
            _ => (SyncState::QueryingChanges, SyncStep::QueryChanges),
        },
        SyncState::QueryingAhead { has_changes } => match event {
            SyncEvent::Output(ahead) => if !has_changes && !ahead {
                (SyncState::Idle, git_success("already up to date"))
            } else if has_changes {
                (SyncState::Staging, SyncStep::StageAll)
            } else {
                (SyncState::QueryingPush, SyncStep::QueryUnpushed)
            },
            _ => (SyncState::QueryingAhead { has_changes }, SyncStep::QueryAhead),
        },
        SyncState::Staging => match event {
            SyncEvent::Exit(ok) => if ok {
                (SyncState::Committing, SyncStep::Commit)
            } else {
                (SyncState::Idle, git_failure("git add failed"))
            },
            _ => (SyncState::Staging, SyncStep::StageAll),
        },
        SyncState::Committing => match event {
            SyncEvent::Exit(_) => (SyncState::QueryingPush, SyncStep::QueryUnpushed),
            _ => (SyncState::Committing, SyncStep::Commit),
        },
        SyncState::QueryingPush => match event {
            SyncEvent::Output(ahead) => if ahead {
                (SyncState::Pushing, SyncStep::Push)
            } else {
                (
                    SyncState::Idle,
                    git_success("synced locally (no remote configured or no push needed)"),
                )
            },
            _ => (SyncState::QueryingPush, SyncStep::QueryUnpushed),
        },
        SyncState::Pushing => match event {
            SyncEvent::Exit(ok) => if ok {
                (SyncState::Idle, git_success("synced!"))
            } else {
                (SyncState::Idle, git_failure("push failed"))
            },
            _ => (SyncState::Pushing, SyncStep::Push),
        },
    }
}

} // verus!
