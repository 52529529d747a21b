//! The decisions of the macOS player module: what to tell the manager about
//! each state the listener sends, and when to store a new cover image.
use vstd::prelude::*;

use crate::listen::track_key;
use crate::player::{album_view, Album, State};
use crate::text::{chars_of, concat, lowercase, lowered, string_of};

verus! {

/// What the macOS module reports as playing.
#[derive(Debug)]
pub struct MacPlay {
    pub title: String,
    pub artist: String,
    pub source: String,
    pub album: Option<Album>,
    pub track_number: Option<u32>,
    /// Position and length in milliseconds, when the player told them.
    pub timeline_ms: Option<(u64, u64)>,
}

/// A cover image ready to be stored: its content type and bytes.
pub type Cover = (String, Vec<u8>);

/// What to tell the manager about a state.
#[derive(Debug)]
pub enum MacStep {
    /// Report a pause.
    Pause,
    /// Report nothing.
    Quiet,
    /// Report this song; `cover` is its artwork when that is a usable image;
    /// `new_track` says whether the song differs from the one before.
    Play { info: MacPlay, cover: Option<Cover>, new_track: bool },
}

/// The play information of a state: the source is `macos-` and the player's
/// name in lowercase; the timeline is given in whole milliseconds.
pub open spec fn mac_play_matches(p: MacPlay, s: State) -> bool {
    &&& p.title@ == s.title@
    &&& p.artist@ == s.artist@
    &&& p.source@ == "macos-"@ + lowercase(s.player_name@)
    &&& album_view(p.album) == album_view(s.album)
    &&& p.track_number == s.track_number
    &&& p.timeline_ms == match s.timeline {
        Some(t) => Some(((t.progress@ / 1_000_000) as u64, (t.duration@ / 1_000_000) as u64)),
        None => None,
    }
}

/// Artwork that is worth storing: more than ten bytes that begin with a JPEG or
/// PNG signature.
pub open spec fn is_cover(d: Seq<u8>) -> bool {
    d.len() > 10 && ((d[0] == 0xFF && d[1] == 0xD8) || (d[0] == 0x89 && d[1] == 0x50 && d[2]
        == 0x4E && d[3] == 0x47))
}

/// The content type of a cover: PNG for a PNG signature, JPEG otherwise.
pub open spec fn cover_type(d: Seq<u8>) -> Seq<char> {
    if d[0] == 0xFF && d[1] == 0xD8 {
        "image/jpeg"@
    } else if d[0] == 0x89 && d[1] == 0x50 && d[2] == 0x4E && d[3] == 0x47 {
        "image/png"@
    } else {
        "image/jpeg"@
    }
}

/// The cover carried by a state's artwork, if it is usable.
pub open spec fn cover_matches(c: Option<Cover>, art: Option<Vec<u8>>) -> bool {
    match art {
        Some(d) => if is_cover(d@) {
            c matches Some((t, b)) && t@ == cover_type(d@) && b@ == d@
        } else {
            c is None
        },
        None => c is None,
    }
}

/// The memory of the macOS module: whether it last reported a pause, and the
/// key of the last song it reported.
pub struct MacOsWorker {
    pub paused: bool,
    pub current_track_id: Option<String>,
}

fn mac_play(state: &State) -> (p: MacPlay)
    ensures
        mac_play_matches(p, *state),
{
    let head = chars_of("macos-");
    let name = lowered(&chars_of(state.player_name.as_str()));
    let source = string_of(&concat(&head, &name));
    let timeline_ms = match &state.timeline {
        Some(t) => Some(
            (
                #[verifier::truncate]
                (t.progress.as_millis() as u64),
                #[verifier::truncate]
                (t.duration.as_millis() as u64),
            ),
        ),
        None => None,
    };
    MacPlay {
        title: state.title.clone(),
        artist: state.artist.clone(),
        source,
        album: match &state.album {
            Some(a) => Some(a.duplicate()),
            None => None,
        },
        track_number: state.track_number,
        timeline_ms,
    }
}

fn cover_of(art: Option<Vec<u8>>) -> (c: Option<Cover>)
    ensures
        cover_matches(c, art),
{
    match art {
        Some(d) => {
            if d.len() > 10 && ((d[0] == 0xFF && d[1] == 0xD8) || (d[0] == 0x89 && d[1] == 0x50
                && d[2] == 0x4E && d[3] == 0x47)) {
                let t = if d[0] == 0xFF && d[1] == 0xD8 {
                    String::from_str("image/jpeg")
                } else if d[0] == 0x89 && d[1] == 0x50 && d[2] == 0x4E && d[3] == 0x47 {
                    String::from_str("image/png")
                } else {
                    String::from_str("image/jpeg")
                };
                Some((t, d))
            } else {
                None
            }
        },
        None => None,
    }
}

/// What the tracker does with a state from the listener, by views.
pub open spec fn on_state_spec(before: MacOsWorker, state: State, after: MacOsWorker, step: MacStep) -> bool {
    if state.title@.len() > 0 && state.artist@.len() > 0 {
        &&& !after.paused
        &&& after.current_track_id matches Some(k) && k@ == track_key(state@)
        &&& step matches MacStep::Play { info, cover, new_track }
            && mac_play_matches(info, state)
            && cover_matches(cover, state.artwork_data)
            && new_track == !(before.current_track_id matches Some(k) && k@ == track_key(state@))
    } else {
        &&& after.paused
        &&& after.current_track_id == before.current_track_id
        &&& if before.paused { step is Quiet } else { step is Pause }
    }
}

impl MacOsWorker {
    /// A tracker that has reported nothing: paused, with no song.
    pub fn new() -> (t: MacOsWorker)
        ensures
            t.paused,
            t.current_track_id is None,
    {
        MacOsWorker { paused: true, current_track_id: None }
    }

    /// What to report for a state from the listener. A state with a title and
    /// an artist is a song: it is reported, the song's key is remembered, and
    /// `new_track` says whether the key changed. Any other state is a pause,
    /// reported once when playing stops.
    pub fn on_state(&mut self, state: State) -> (step: MacStep)
        ensures
            on_state_spec(*old(self), state, *final(self), step),
    {
        if state.title.as_str().is_empty() || state.artist.as_str().is_empty() {
            let was_playing = !self.paused;
            self.paused = true;
            return if was_playing {
                MacStep::Pause
            } else {
                MacStep::Quiet
            };
        }
        self.paused = false;
        let info = mac_play(&state);
        let key = {
            let dash = chars_of("-");
            let p = chars_of(state.player_name.as_str());
            let t = chars_of(state.title.as_str());
            let a = chars_of(state.artist.as_str());
            string_of(&concat(&concat(&concat(&concat(&p, &dash), &t), &dash), &a))
        };
        let new_track = match &self.current_track_id {
            Some(last) => !(*last == key),
            None => true,
        };
        if new_track {
            self.current_track_id = Some(key);
        }
        let cover = cover_of(state.artwork_data);
        MacStep::Play { info, cover, new_track }
    }
}

/// Whether a cover should be stored, given the latest image stored in the slot
/// (its length; `None` when there is none or the store could not be read):
/// always for a new song or when there is no image, else when the size differs.
pub open spec fn should_store_spec(latest_len: Option<usize>, len: usize, new_track: bool) -> bool {
    match latest_len {
        Some(l) => l != len || new_track,
        None => true,
    }
}

/// Whether a cover should be stored.
pub fn should_store(latest_len: Option<usize>, len: usize, new_track: bool) -> (r: bool)
    ensures
        r == should_store_spec(latest_len, len, new_track),
{
    match latest_len {
        Some(l) => l != len || new_track,
        None => true,
    }
}

/// The epoch of the image to show: the epoch of a new store when one was made,
/// else the latest epoch, else zero.
pub open spec fn image_epoch_spec(stored: Option<usize>, latest: Option<usize>) -> usize {
    match stored {
        Some(e) => e,
        None => match latest {
            Some(e) => e,
            None => 0,
        },
    }
}

/// The epoch of the image to show.
pub fn image_epoch(stored: Option<usize>, latest: Option<usize>) -> (e: usize)
    ensures
        e == image_epoch_spec(stored, latest),
{
    match stored {
        Some(e) => e,
        None => match latest {
            Some(e) => e,
            None => 0,
        },
    }
}

/// The same song twice in a row is new only the first time.
pub proof fn law_same_song_is_not_new(
    t0: MacOsWorker,
    t1: MacOsWorker,
    t2: MacOsWorker,
    a: State,
    b: State,
    s1: MacStep,
    s2: MacStep,
)
    requires
        on_state_spec(t0, a, t1, s1),
        on_state_spec(t1, b, t2, s2),
        a.title@.len() > 0 && a.artist@.len() > 0,
        track_key(a@) == track_key(b@),
        b.title@.len() > 0 && b.artist@.len() > 0,
    ensures
        s2 matches MacStep::Play { new_track, .. } && !new_track,
{
}

/// A state without a title or artist after a song reports a pause once.
pub proof fn law_pause_after_song(
    t0: MacOsWorker,
    t1: MacOsWorker,
    t2: MacOsWorker,
    t3: MacOsWorker,
    a: State,
    b: State,
    c: State,
    s1: MacStep,
    s2: MacStep,
    s3: MacStep,
)
    requires
        on_state_spec(t0, a, t1, s1),
        on_state_spec(t1, b, t2, s2),
        on_state_spec(t2, c, t3, s3),
        a.title@.len() > 0 && a.artist@.len() > 0,
        b.title@.len() == 0,
        c.artist@.len() == 0,
    ensures
        s2 is Pause,
        s3 is Quiet,
{
}

} // verus!
