use vstd::prelude::*;
use crate::locate::LocateError;

verus! {

/// A transport command, parsed from the caller's symbolic name.
#[derive(Clone, Copy, Debug, PartialEq, Eq, Structural)]
pub enum TransportAction {
    PlayPause,
    Next,
    Previous,
    /// Any other name: accepted, and does nothing.
    Unknown,
}

/// The action that a name stands for.
pub open spec fn action_named(name: Seq<char>) -> TransportAction {
    if name == "play_pause"@ {
        TransportAction::PlayPause
    } else if name == "next"@ {
        TransportAction::Next
    } else if name == "prev"@ {
        TransportAction::Previous
    } else {
        TransportAction::Unknown
    }
}

impl TransportAction {
    /// Parses `"play_pause"`, `"next"` and `"prev"`; every other name is `Unknown`.
    pub fn parse(name: &str) -> (r: TransportAction)
        ensures
            r == action_named(name@),
    {
        let name = name.to_owned();
        if name == "play_pause".to_owned() {
            TransportAction::PlayPause
        } else if name == "next".to_owned() {
            TransportAction::Next
        } else if name == "prev".to_owned() {
            TransportAction::Previous
        } else {
            TransportAction::Unknown
        }
    }
}

/// Why a command failed.
#[derive(Clone, Debug, PartialEq, Eq)]
pub enum CommandError {
    /// The manager reports no current session: there is nothing to control.
    NoSession,
    /// The request for the session manager failed.
    ManagerUnavailable(String),
    /// The session refused the request, or acknowledged it as failed.
    TransportFailed(String),
}

impl CommandError {
    /// The error as text for the host shell.
    pub fn message(&self) -> (m: String)
        ensures
            m@ == match *self {
                CommandError::NoSession => "No session"@,
                CommandError::ManagerUnavailable(msg) => msg@,
                CommandError::TransportFailed(msg) => msg@,
            },
    {
        match self {
            CommandError::NoSession => "No session".to_owned(),
            CommandError::ManagerUnavailable(msg) => msg.clone(),
            CommandError::TransportFailed(msg) => msg.clone(),
        }
    }
}

/// The command error for a session that could not be located.
pub open spec fn locate_failure(e: LocateError) -> CommandError {
    match e {
        LocateError::ManagerUnavailable(msg) => CommandError::ManagerUnavailable(msg),
        LocateError::NoActiveSession => CommandError::NoSession,
    }
}

/// Where a command stands. `Locating` and `Dispatching` name the request that
/// the caller performs next; `S` is the session handle, owned by this command.
#[derive(Debug, PartialEq, Eq)]
pub enum CommandState<S> {
    /// Locate the current session.
    Locating { action: TransportAction },
    /// Issue the request for `action` (never `Unknown`) on `session`.
    Dispatching { session: S, action: TransportAction },
    /// Finished.
    Done(Result<(), CommandError>),
}

/// The outcome of the request that a state named.
#[derive(Debug, PartialEq, Eq)]
pub enum CommandEvent<S> {
    Located(Result<S, LocateError>),
    /// The session's acknowledgment of the request; `Err` carries the message
    /// of a request that could not be issued or that completed with failure.
    Acknowledged(Result<(), String>),
}

/// `next` is what a command in `state` moves to on `event`. Failing to locate a
/// session fails the command; with a session, `Unknown` succeeds at once and
/// every other action is dispatched. An event that the state did not ask for
/// changes nothing.
pub open spec fn command_moves<S>(state: CommandState<S>, event: CommandEvent<S>, next: CommandState<S>) -> bool {
    match (state, event) {
        (CommandState::Locating { .. }, CommandEvent::Located(Err(e))) =>
            next == CommandState::<S>::Done(Err(locate_failure(e))),
        (CommandState::Locating { action }, CommandEvent::Located(Ok(session))) =>
            if action is Unknown {
                next == CommandState::<S>::Done(Ok(()))
            } else {
                next == CommandState::Dispatching { session, action }
            },
        (CommandState::Dispatching { .. }, CommandEvent::Acknowledged(Ok(()))) =>
            next == CommandState::<S>::Done(Ok(())),
        (CommandState::Dispatching { .. }, CommandEvent::Acknowledged(Err(msg))) =>
            next == CommandState::<S>::Done(Err(CommandError::TransportFailed(msg))),
        (state, _) => next == state,
    }
}

impl<S> CommandState<S> {
    /// A fresh command for the action named `name`: it starts by locating the
    /// session, whatever the name.
    pub fn start(name: &str) -> (r: CommandState<S>)
        ensures
            r == (CommandState::<S>::Locating { action: action_named(name@) }),
    {
        CommandState::Locating { action: TransportAction::parse(name) }
    }

    /// Moves the command on by the outcome of the request its state named.
    pub fn step(self, event: CommandEvent<S>) -> (next: CommandState<S>)
        ensures
            command_moves(self, event, next),
    {
        match (self, event) {
            (CommandState::Locating { .. }, CommandEvent::Located(Err(e))) => {
                let err = match e {
                    LocateError::ManagerUnavailable(msg) => CommandError::ManagerUnavailable(msg),
                    LocateError::NoActiveSession => CommandError::NoSession,
                };
                CommandState::Done(Err(err))
            },
            (CommandState::Locating { action }, CommandEvent::Located(Ok(session))) => {
                match action {
                    TransportAction::Unknown => CommandState::Done(Ok(())),
                    _ => CommandState::Dispatching { session, action },
                }
            },
            (CommandState::Dispatching { .. }, CommandEvent::Acknowledged(Ok(()))) => {
                CommandState::Done(Ok(()))
            },
            (CommandState::Dispatching { .. }, CommandEvent::Acknowledged(Err(msg))) => {
                CommandState::Done(Err(CommandError::TransportFailed(msg)))
            },
            (state, _) => state,
        }
    }
}

/// With a session located, a command whose name is none of `"play_pause"`,
/// `"next"` and `"prev"` succeeds at once and issues no request.
pub proof fn lemma_unknown_action_is_noop<S>(name: Seq<char>, session: S, next: CommandState<S>)
    requires
        name != "play_pause"@,
        name != "next"@,
        name != "prev"@,
        command_moves(
            CommandState::Locating { action: action_named(name) },
            CommandEvent::Located(Ok(session)),
            next,
        ),
    ensures
        next == CommandState::<S>::Done(Ok(())),
{
}

/// Each of the three recognized commands fails with `NoSession` when the
/// manager has no current session, and issues no request.
pub proof fn lemma_no_session_fails_command<S>(name: Seq<char>, next: CommandState<S>)
    requires
        name == "play_pause"@ || name == "next"@ || name == "prev"@,
        command_moves(
            CommandState::Locating { action: action_named(name) },
            CommandEvent::Located(Err(LocateError::NoActiveSession)),
            next,
        ),
    ensures
        next == CommandState::<S>::Done(Err(CommandError::NoSession)),
{
}

/// `"play_pause"` carries no notion of the current play state from one call
/// to the next: issued twice, it dispatches the session's toggle request both
/// times, whatever became of the first, so the session toggles twice.
pub proof fn lemma_play_pause_twice<S>(
    first_session: S,
    second_session: S,
    first: CommandState<S>,
    ack: Result<(), String>,
    first_done: CommandState<S>,
    second: CommandState<S>,
)
    requires
        command_moves(
            CommandState::Locating { action: action_named("play_pause"@) },
            CommandEvent::Located(Ok(first_session)),
            first,
        ),
        command_moves(first, CommandEvent::Acknowledged(ack), first_done),
        command_moves(
            CommandState::Locating { action: action_named("play_pause"@) },
            CommandEvent::Located(Ok(second_session)),
            second,
        ),
    ensures
        first == (CommandState::Dispatching {
            session: first_session,
            action: TransportAction::PlayPause,
        }),
        second == (CommandState::Dispatching {
            session: second_session,
            action: TransportAction::PlayPause,
        }),
        first_done is Done,
{
}

} // verus!
