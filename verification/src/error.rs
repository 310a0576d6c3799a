use vstd::prelude::*;

verus! {

/// The two failure kinds of the workflow: an external program failed
/// (it could not be spawned, or it exited with a nonzero status), or a
/// semantic precondition was violated (a page already exists, a page is
/// missing, a language has no translation, and so on).
#[derive(Debug, PartialEq, Eq)]
pub enum Error {
    /// An external program could not be spawned or exited nonzero; the
    /// string describes what happened.
    ChildProcess(String),
    /// A precondition of the requested operation was violated; the
    /// string is a human-readable description.
    Msg(String),
}

impl Error {
    /// The process exit status that reports this error: message
    /// failures and child-process failures map to distinct statuses, so
    /// a caller can tell a failed validation from a failed tool.
    pub fn code(&self) -> (r: i32)
        ensures
            self is Msg ==> r == 1,
            self is ChildProcess ==> r == 2,
    {
        match self {
            Error::Msg(_) => 1,
            Error::ChildProcess(_) => 2,
        }
    }
}

} // verus!
