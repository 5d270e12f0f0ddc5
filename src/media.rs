use vstd::prelude::*;

verus! {

/// Playback status as the session manager reports it.
#[derive(Clone, Copy, Debug, PartialEq, Eq, Structural)]
pub enum PlaybackStatus {
    Closed,
    Opened,
    Changing,
    Stopped,
    Playing,
    Paused,
}

impl PlaybackStatus {
    /// Only `Playing` counts as playing; every other status, transitional ones
    /// included, does not.
    pub fn is_playing(&self) -> (r: bool)
        ensures
            r == (*self is Playing),
    {
        match self {
            PlaybackStatus::Playing => true,
            _ => false,
        }
    }
}

/// Title and artist of the item a session is presenting.
#[derive(Clone, Debug, PartialEq, Eq)]
pub struct MediaInfo {
    pub title: String,
    pub artist: String,
}

/// What a query reports: the current item and whether it is playing.
#[derive(Clone, Debug, PartialEq, Eq)]
pub struct MediaSnapshot {
    pub title: String,
    pub artist: String,
    pub is_playing: bool,
}

/// Label shown as the title when there is no session to read.
pub open spec fn placeholder_title() -> Seq<char> {
    "Pausado"@
}

/// Label shown as the artist when there is no session to read.
pub open spec fn placeholder_artist() -> Seq<char> {
    "..."@
}

/// The snapshot that stands in for "nothing to show".
pub open spec fn is_placeholder(s: MediaSnapshot) -> bool {
    &&& s.title@ == placeholder_title()
    &&& s.artist@ == placeholder_artist()
    &&& !s.is_playing
}

impl MediaSnapshot {
    /// The placeholder snapshot, reported when no session can be located.
    pub fn placeholder() -> (r: MediaSnapshot)
        ensures
            is_placeholder(r),
    {
        MediaSnapshot { title: "Pausado".to_owned(), artist: "...".to_owned(), is_playing: false }
    }

    /// Assembles a snapshot from a session's metadata and playback status.
    pub fn from_parts(info: MediaInfo, status: PlaybackStatus) -> (r: MediaSnapshot)
        ensures
            r == (MediaSnapshot {
                title: info.title,
                artist: info.artist,
                is_playing: status is Playing,
            }),
    {
        let is_playing = status.is_playing();
        MediaSnapshot { title: info.title, artist: info.artist, is_playing }
    }
}

} // verus!
