//! Media players of macOS and the playback state read from them.
use vstd::prelude::*;

use crate::span::{now, Span, Timestamp};

verus! {

/// The media players that can be asked what they play.
#[derive(Debug, Clone, Copy, PartialEq, Eq, Structural)]
pub enum MediaPlayer {
    Music,
    Spotify,
    Unknown,
}

impl Default for MediaPlayer {
    fn default() -> (r: Self)
        ensures
            r == MediaPlayer::Unknown,
    {
        MediaPlayer::Unknown
    }
}

/// The JSON error of a reply that could not be read.
#[verifier::external_type_specification]
#[verifier::external_body]
pub struct ExJsonError(serde_json::Error);

/// Why asking a player failed.
#[derive(Debug)]
pub enum PlayerError {
    /// The script failed; the message is what it printed on its error stream.
    AppleScript(String),
    /// The script's reply was not the JSON that was expected.
    Json(serde_json::Error),
}

/// Album of a track.
#[derive(Debug, Clone, PartialEq)]
pub struct Album {
    pub title: String,
    pub track_count: u32,
}

/// Position in a track and the track's length.
#[derive(Debug, Clone, Copy, PartialEq)]
pub struct Timeline {
    pub progress: Span,
    pub duration: Span,
}

/// What a media player is playing.
#[derive(Debug, Clone, PartialEq)]
pub struct State {
    pub title: String,
    pub artist: String,
    pub album: Option<Album>,
    pub track_id: Option<String>,
    pub track_number: Option<u32>,
    pub timeline: Option<Timeline>,
    pub player_name: String,
    pub timestamp: Timestamp,
    pub artwork_data: Option<Vec<u8>>,
}

/// A state, by the views of its fields.
pub struct StateView {
    pub title: Seq<char>,
    pub artist: Seq<char>,
    pub album: Option<(Seq<char>, u32)>,
    pub track_id: Option<Seq<char>>,
    pub track_number: Option<u32>,
    pub timeline: Option<(nat, nat)>,
    pub player_name: Seq<char>,
    pub timestamp: Timestamp,
    pub artwork_data: Option<Seq<u8>>,
}

/// The view of an optional album.
pub open spec fn album_view(a: Option<Album>) -> Option<(Seq<char>, u32)> {
    match a {
        Some(al) => Some((al.title@, al.track_count)),
        None => None,
    }
}

/// The view of an optional timeline: progress and length in nanoseconds.
pub open spec fn timeline_view(t: Option<Timeline>) -> Option<(nat, nat)> {
    match t {
        Some(tl) => Some((tl.progress@, tl.duration@)),
        None => None,
    }
}

/// The view of an optional string.
pub open spec fn opt_str_view(s: Option<String>) -> Option<Seq<char>> {
    match s {
        Some(x) => Some(x@),
        None => None,
    }
}

/// The view of optional bytes.
pub open spec fn opt_bytes_view(b: Option<Vec<u8>>) -> Option<Seq<u8>> {
    match b {
        Some(x) => Some(x@),
        None => None,
    }
}

impl View for State {
    type V = StateView;

    open spec fn view(&self) -> StateView {
        StateView {
            title: self.title@,
            artist: self.artist@,
            album: album_view(self.album),
            track_id: opt_str_view(self.track_id),
            track_number: self.track_number,
            timeline: timeline_view(self.timeline),
            player_name: self.player_name@,
            timestamp: self.timestamp,
            artwork_data: opt_bytes_view(self.artwork_data),
        }
    }
}

/// A state with nothing playing (taken at some moment).
pub open spec fn is_paused_view(v: StateView) -> bool {
    &&& v.title.len() == 0
    &&& v.artist.len() == 0
    &&& v.album is None
    &&& v.track_id is None
    &&& v.track_number is None
    &&& v.timeline is None
    &&& v.player_name.len() == 0
    &&& v.artwork_data is None
}

fn copy_bytes(v: &Vec<u8>) -> (r: Vec<u8>)
    ensures
        r@ == v@,
{
    let mut r: Vec<u8> = Vec::new();
    let mut i: usize = 0;
    while i < v.len()
        invariant
            i <= v.len(),
            r@ == v@.take(i as int),
        decreases v.len() - i,
    {
        r.push(v[i]);
        assert(v@.take(i + 1) == v@.take(i as int).push(v@[i as int]));
        i = i + 1;
    }
    assert(v@.take(v.len() as int) == v@);
    r
}

/// A copy of optional bytes.
pub fn copy_opt_bytes(b: &Option<Vec<u8>>) -> (r: Option<Vec<u8>>)
    ensures
        opt_bytes_view(r) == opt_bytes_view(*b),
{
    match b {
        Some(v) => Some(copy_bytes(v)),
        None => None,
    }
}

impl Album {
    /// A copy of this album.
    pub fn duplicate(&self) -> (r: Album)
        ensures
            r.title@ == self.title@,
            r.track_count == self.track_count,
    {
        Album { title: self.title.clone(), track_count: self.track_count }
    }
}

impl State {
    /// A copy of this state.
    pub fn duplicate(&self) -> (r: State)
        ensures
            r@ == self@,
    {
        State {
            title: self.title.clone(),
            artist: self.artist.clone(),
            album: match &self.album {
                Some(a) => Some(a.duplicate()),
                None => None,
            },
            track_id: match &self.track_id {
                Some(t) => Some(t.clone()),
                None => None,
            },
            track_number: self.track_number,
            timeline: self.timeline,
            player_name: self.player_name.clone(),
            timestamp: self.timestamp,
            artwork_data: copy_opt_bytes(&self.artwork_data),
        }
    }

    /// This state with the given artwork, all else unchanged.
    pub fn with_artwork(self, artwork: Option<Vec<u8>>) -> (r: State)
        ensures
            r@ == (StateView { artwork_data: opt_bytes_view(artwork), ..self@ }),
    {
        let mut s = self;
        s.artwork_data = artwork;
        s
    }

    /// The state sent when nothing plays: empty, stamped with the current time.
    pub fn paused() -> (s: State)
        ensures
            is_paused_view(s@),
    {
        Self::default()
    }
}

impl Default for State {
    fn default() -> (s: State)
        ensures
            is_paused_view(s@),
    {
        State {
            title: String::new(),
            artist: String::new(),
            album: None,
            track_id: None,
            track_number: None,
            timeline: None,
            player_name: String::new(),
            timestamp: now(),
            artwork_data: None,
        }
    }
}

/// Album fields of a track as a player reports them.
#[derive(Debug, Clone, PartialEq)]
pub struct AlbumInfo {
    pub title: String,
    pub track_count: u32,
}

/// A track as a player reports it.
#[derive(Debug, Clone, PartialEq)]
pub struct TrackInfo {
    pub title: String,
    pub artist: String,
    pub album: AlbumInfo,
    pub track_number: Option<u32>,
}

/// Watches the media players at a fixed interval.
#[derive(Debug, Clone)]
pub struct PlayerListener {
    interval: Span,
    players: Vec<String>,
}

impl PlayerListener {
    /// The time between two looks at the players, in nanoseconds.
    pub closed spec fn interval_nanos(&self) -> nat {
        self.interval@
    }

    /// The players named at creation.
    pub closed spec fn player_names(&self) -> Seq<String> {
        self.players@
    }

    /// A listener for the given players that looks every `interval_ms` milliseconds.
    pub fn new(players: Vec<String>, interval_ms: u64) -> (l: PlayerListener)
        ensures
            l.interval_nanos() == interval_ms * 1_000_000,
            l.player_names() == players@,
    {
        PlayerListener { interval: Span::from_millis(interval_ms), players }
    }

    /// A listener for Spotify and Music that looks every second.
    pub fn default() -> (l: PlayerListener)
        ensures
            l.interval_nanos() == 1_000_000_000,
            l.player_names().len() == 2,
            l.player_names()[0]@ == "Spotify"@,
            l.player_names()[1]@ == "Music"@,
    {
        let players = vec![String::from_str("Spotify"), String::from_str("Music")];
        PlayerListener { interval: Span::from_millis(1000), players }
    }

    /// The time between two looks at the players.
    pub fn interval(&self) -> (r: Span)
        ensures
            r@ == self.interval_nanos(),
    {
        self.interval
    }

    /// The players named at creation.
    pub fn players(&self) -> (r: &Vec<String>)
        ensures
            r@ == self.player_names(),
    {
        &self.players
    }
}

} // verus!
