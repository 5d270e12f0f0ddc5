use vstd::prelude::*;

verus! {

/// Why no session handle could be had.
#[derive(Clone, Debug, PartialEq, Eq)]
pub enum LocateError {
    /// The request for the session manager failed; the message says why.
    ManagerUnavailable(String),
    /// The manager reports no current session.
    NoActiveSession,
}

impl LocateError {
    /// The error as text for the host shell.
    pub fn message(&self) -> (m: String)
        ensures
            m@ == match *self {
                LocateError::ManagerUnavailable(msg) => msg@,
                LocateError::NoActiveSession => "No session"@,
            },
    {
        match self {
            LocateError::ManagerUnavailable(msg) => msg.clone(),
            LocateError::NoActiveSession => "No session".to_owned(),
        }
    }
}

/// The outcome of asking the manager for its current session: the handle, or
/// `NoActiveSession` where the manager has none.
pub fn current_session<S>(current: Option<S>) -> (r: Result<S, LocateError>)
    ensures
        match current {
            Some(s) => r == Ok::<S, LocateError>(s),
            None => r == Err::<S, LocateError>(LocateError::NoActiveSession),
        },
{
    match current {
        Some(s) => Ok(s),
        None => Err(LocateError::NoActiveSession),
    }
}

} // verus!
