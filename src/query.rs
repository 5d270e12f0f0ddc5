use vstd::prelude::*;
use crate::locate::LocateError;
use crate::media::{is_placeholder, MediaInfo, MediaSnapshot, PlaybackStatus};

verus! {

/// Where a query stands. Each state but `Done` names the request that the
/// caller performs next; `S` is the session handle, owned by this one query.
#[derive(Debug, PartialEq, Eq)]
pub enum QueryState<S> {
    /// Locate the current session.
    Locating,
    /// Fetch the session's metadata.
    FetchingMetadata { session: S },
    /// Read the session's playback status.
    ReadingStatus { session: S, title: String, artist: String },
    /// Finished, with what the query reports.
    Done(Result<MediaSnapshot, String>),
}

/// The outcome of the request that a state named.
#[derive(Debug, PartialEq, Eq)]
pub enum QueryEvent<S> {
    Located(Result<S, LocateError>),
    MetadataFetched(Result<MediaInfo, String>),
    StatusRead(Result<PlaybackStatus, String>),
}

/// `next` is what a query in `state` moves to on `event`. A failure to locate a
/// session is masked as the placeholder; a failure to read metadata or status
/// is reported. An event that the state did not ask for changes nothing.
pub open spec fn query_moves<S>(state: QueryState<S>, event: QueryEvent<S>, next: QueryState<S>) -> bool {
    match (state, event) {
        (QueryState::Locating, QueryEvent::Located(Err(_))) =>
            next matches QueryState::Done(Ok(snap)) && is_placeholder(snap),
        (QueryState::Locating, QueryEvent::Located(Ok(session))) =>
            next == QueryState::FetchingMetadata { session },
        (QueryState::FetchingMetadata { session }, QueryEvent::MetadataFetched(Ok(info))) =>
            next == QueryState::ReadingStatus { session, title: info.title, artist: info.artist },
        (QueryState::FetchingMetadata { .. }, QueryEvent::MetadataFetched(Err(msg))) =>
            next == QueryState::<S>::Done(Err(msg)),
        (QueryState::ReadingStatus { title, artist, .. }, QueryEvent::StatusRead(Ok(status))) =>
            next == QueryState::<S>::Done(
                Ok(MediaSnapshot { title, artist, is_playing: status is Playing }),
            ),
        (QueryState::ReadingStatus { .. }, QueryEvent::StatusRead(Err(msg))) =>
            next == QueryState::<S>::Done(Err(msg)),
        (state, _) => next == state,
    }
}

impl<S> QueryState<S> {
    /// A fresh query: it starts by locating the session.
    pub fn start() -> (r: QueryState<S>)
        ensures
            r == QueryState::<S>::Locating,
    {
        QueryState::Locating
    }

    /// Moves the query on by the outcome of the request its state named.
    pub fn step(self, event: QueryEvent<S>) -> (next: QueryState<S>)
        ensures
            query_moves(self, event, next),
    {
        match (self, event) {
            (QueryState::Locating, QueryEvent::Located(Err(_))) => QueryState::Done(
                Ok(MediaSnapshot::placeholder()),
            ),
            (QueryState::Locating, QueryEvent::Located(Ok(session))) => QueryState::FetchingMetadata {
                session,
            },
            (QueryState::FetchingMetadata { session }, QueryEvent::MetadataFetched(Ok(info))) => {
                QueryState::ReadingStatus { session, title: info.title, artist: info.artist }
            },
            (QueryState::FetchingMetadata { .. }, QueryEvent::MetadataFetched(Err(msg))) => {
                QueryState::Done(Err(msg))
            },
            (
                QueryState::ReadingStatus { title, artist, .. },
                QueryEvent::StatusRead(Ok(status)),
            ) => QueryState::Done(
                Ok(MediaSnapshot::from_parts(MediaInfo { title, artist }, status)),
            ),
            (QueryState::ReadingStatus { .. }, QueryEvent::StatusRead(Err(msg))) => {
                QueryState::Done(Err(msg))
            },
            (state, _) => state,
        }
    }
}

/// A query that cannot locate a session, whatever the reason, reports the
/// placeholder snapshot and not an error, and asks for nothing more: no later
/// event moves it.
pub proof fn lemma_query_without_session<S>(
    e: LocateError,
    done: QueryState<S>,
    event: QueryEvent<S>,
    after: QueryState<S>,
)
    requires
        query_moves(QueryState::Locating, QueryEvent::Located(Err(e)), done),
        query_moves(done, event, after),
    ensures
        done matches QueryState::Done(Ok(snap)) && is_placeholder(snap),
        after == done,
{
}

/// A query whose session yields metadata and a status reports that metadata,
/// and reports it as playing exactly when the status is `Playing`.
pub proof fn lemma_query_is_playing<S>(
    session: S,
    info: MediaInfo,
    status: PlaybackStatus,
    located: QueryState<S>,
    fetched: QueryState<S>,
    done: QueryState<S>,
)
    requires
        query_moves(QueryState::Locating, QueryEvent::Located(Ok(session)), located),
        query_moves(located, QueryEvent::MetadataFetched(Ok(info)), fetched),
        query_moves(fetched, QueryEvent::StatusRead(Ok(status)), done),
    ensures
        done == QueryState::<S>::Done(
            Ok(MediaSnapshot { title: info.title, artist: info.artist, is_playing: status is Playing }),
        ),
        done matches QueryState::Done(Ok(snap))
            && (snap.is_playing <==> status == PlaybackStatus::Playing),
{
}

/// A query whose session is located but whose metadata request fails reports
/// that failure, not the placeholder.
pub proof fn lemma_query_metadata_failure<S>(
    session: S,
    msg: String,
    located: QueryState<S>,
    done: QueryState<S>,
)
    requires
        query_moves(QueryState::Locating, QueryEvent::Located(Ok(session)), located),
        query_moves(located, QueryEvent::MetadataFetched(Err(msg)), done),
    ensures
        done == QueryState::<S>::Done(Err(msg)),
{
}

} // verus!
