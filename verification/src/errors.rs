//! Failures of the operations a user can start.

use vstd::prelude::*;
use vstd::string::StringExecFns;

verus! {

/// Why the file system refused.
#[derive(Debug, Clone, Copy, PartialEq, Eq, Structural)]
pub enum IoKind {
    /// Nothing is there.
    NotFound,
    /// The user may not.
    PermissionDenied,
    /// Something is there already.
    AlreadyExists,
    /// Any other reason.
    Other,
}

/// Why an operation failed. Each variant carries the text that describes
/// the failure.
#[derive(Debug, Clone, PartialEq)]
pub enum KirokuError {
    /// The file system refused.
    Io(IoKind, String),
    /// The version-control client refused or is missing.
    Git(String),
    /// The environment is not as needed.
    Env(String),
}

/// The mathematical content of a [`KirokuError`].
#[verifier::ext_equal]
pub enum ErrorView {
    Io(IoKind, Seq<char>),
    Git(Seq<char>),
    Env(Seq<char>),
}

impl View for KirokuError {
    type V = ErrorView;

    open spec fn view(&self) -> ErrorView {
        match self {
            KirokuError::Io(k, m) => ErrorView::Io(*k, m@),
            KirokuError::Git(m) => ErrorView::Git(m@),
            KirokuError::Env(m) => ErrorView::Env(m@),
        }
    }
}

impl ErrorView {
    /// The one-line text shown to the user.
    pub open spec fn message(self) -> Seq<char> {
        match self {
            ErrorView::Io(_, m) => "IO error: "@ + m,
            ErrorView::Git(m) => "Git error: "@ + m,
            ErrorView::Env(m) => "Environment error: "@ + m,
        }
    }
}

impl KirokuError {
    /// The one-line text shown to the user: the kind of failure, then its
    /// description.
    pub fn message(&self) -> (r: String)
        ensures
            r@ == self@.message(),
    {
        match self {
            KirokuError::Io(_, m) => String::from_str("IO error: ").concat(m.as_str()),
            KirokuError::Git(m) => String::from_str("Git error: ").concat(m.as_str()),
            KirokuError::Env(m) => String::from_str("Environment error: ").concat(m.as_str()),
        }
    }

    /// A copy of the failure.
    pub fn duplicate(&self) -> (r: KirokuError)
        ensures
            r@ == self@,
    {
        match self {
            KirokuError::Io(k, m) => KirokuError::Io(*k, m.clone()),
            KirokuError::Git(m) => KirokuError::Git(m.clone()),
            KirokuError::Env(m) => KirokuError::Env(m.clone()),
        }
    }
}

} // verus!
