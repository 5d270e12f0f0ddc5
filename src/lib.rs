//! Access to the host's current media session: a normalized snapshot of what
//! is playing, and transport commands (play/pause, next, previous).
//!
//! Every request to the operating system suspends, so each operation is a small
//! state machine: the caller performs the request that the state names, hands
//! back its outcome as an event, and steps the machine until it is done.
pub mod command;
pub mod locate;
pub mod media;
pub mod query;

pub use command::{CommandError, CommandEvent, CommandState, TransportAction};
pub use locate::{current_session, LocateError};
pub use media::{MediaInfo, MediaSnapshot, PlaybackStatus};
pub use query::{QueryEvent, QueryState};
