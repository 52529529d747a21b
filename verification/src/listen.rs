//! Watching the players: when a new state is worth sending, and how the
//! watch loop decides what to send at each tick.
use vstd::prelude::*;

use crate::fmt::{decimal, decimal2, decimal2_chars};
use crate::player::{copy_opt_bytes, is_paused_view, MediaPlayer, State, StateView};
use crate::span::Span;
use crate::text::{chars_of, concat, same, string_of};

verus! {

/// Five seconds, in nanoseconds: a jump in playback position beyond this counts
/// as a change.
pub const SEEK_THRESHOLD_NANOS: u64 = 5_000_000_000;

/// Ticks between two reminders sent while nothing changes.
pub const LOG_FREQUENCY: u64 = 45;

/// Ticks between two quiet position updates.
pub const QUIET_UPDATE_EVERY: u64 = 5;

/// Whether the playback position moved by more than five seconds, or a
/// timeline appeared or disappeared.
pub open spec fn timeline_moved(a: Option<(nat, nat)>, b: Option<(nat, nat)>) -> bool {
    match (a, b) {
        (Some(x), Some(y)) => (if x.0 >= y.0 {
            x.0 - y.0
        } else {
            y.0 - x.0
        }) > SEEK_THRESHOLD_NANOS,
        (None, None) => false,
        _ => true,
    }
}

/// Whether `cur` should replace the last state sent: always when there was
/// none, else when the title, artist or player changed or the timeline moved.
pub open spec fn should_update(last: Option<StateView>, cur: StateView) -> bool {
    match last {
        None => true,
        Some(l) => l.title != cur.title || l.artist != cur.artist || l.player_name
            != cur.player_name || timeline_moved(l.timeline, cur.timeline),
    }
}

/// The view of an optional state.
pub open spec fn opt_state_view(s: Option<State>) -> Option<StateView> {
    match s {
        Some(st) => Some(st@),
        None => None,
    }
}

/// Determines whether the current state should replace the last one sent.
pub fn should_update_state(last_state: &Option<State>, current_state: &State) -> (r: bool)
    ensures
        r == should_update(opt_state_view(*last_state), current_state@),
{
    match last_state {
        None => true,
        Some(last) => {
            if !(last.title == current_state.title) || !(last.artist == current_state.artist) || !(
            last.player_name == current_state.player_name) {
                return true;
            }
            match (&last.timeline, &current_state.timeline) {
                (Some(lt), Some(ct)) => {
                    let diff = lt.progress.distance(&ct.progress);
                    let limit = Span::from_secs(5);
                    limit.lt(&diff)
                },
                (None, None) => false,
                _ => true,
            }
        },
    }
}

/// `MM:SS` of a length in nanoseconds (minutes unbounded), or `--:--` for none
/// or for less than one second.
pub open spec fn duration_text(d: Option<nat>) -> Seq<char> {
    match d {
        Some(n) => {
            let secs = Span::secs_of(n);
            if secs == 0 {
                "--:--"@
            } else {
                decimal2(secs / 60) + seq![':'] + decimal2(secs % 60)
            }
        },
        None => "--:--"@,
    }
}

/// The view of an optional span.
pub open spec fn opt_span_view(d: Option<Span>) -> Option<nat> {
    match d {
        Some(s) => Some(s@),
        None => None,
    }
}

/// Formats a length of time as `MM:SS`.
pub fn format_duration(duration: &Option<Span>) -> (r: String)
    ensures
        r@ == duration_text(opt_span_view(*duration)),
{
    match duration {
        Some(d) => {
            let total = d.as_secs();
            if total == 0 {
                return String::from_str("--:--");
            }
            let mins = decimal2_chars(total / 60);
            let secs = decimal2_chars(total % 60);
            let mut colon: Vec<char> = Vec::new();
            colon.push(':');
            let head = concat(&mins, &colon);
            let all = concat(&head, &secs);
            assert(colon@ =~= seq![':']);
            string_of(&all)
        },
        None => String::from_str("--:--"),
    }
}

/// The key that tells songs apart: `player-title-artist`.
pub open spec fn track_key(s: StateView) -> Seq<char> {
    s.player_name + "-"@ + s.title + "-"@ + s.artist
}

/// The player whose artwork script serves a state, by the player's name.
pub open spec fn artwork_source(player_name: Seq<char>) -> MediaPlayer {
    if player_name == "Music"@ {
        MediaPlayer::Music
    } else if player_name == "Spotify"@ {
        MediaPlayer::Spotify
    } else {
        MediaPlayer::Unknown
    }
}

/// Whether the song changed from the last state sent.
pub open spec fn song_changed(last: Option<StateView>, cur: StateView) -> bool {
    match last {
        None => true,
        Some(l) => l.title != cur.title || l.artist != cur.artist,
    }
}

/// What the watch loop does at the end of a tick.
#[derive(Debug)]
pub enum ListenStep {
    /// Fetch the artwork of this player for this state, store it in the state's
    /// `artwork_data`, then hand the state to `on_artwork`.
    FetchArtwork(State, MediaPlayer),
    /// Send this state.
    Send(State),
    /// Send nothing.
    Wait,
}

/// The memory of the watch loop between ticks.
pub struct ListenLoop {
    /// The last state sent as a change.
    pub last_state: Option<State>,
    /// Ticks since the last reminder.
    pub log_counter: u64,
    /// The key of the last song whose artwork was fetched.
    pub last_track_id: Option<String>,
}

/// The memory of the watch loop, by views.
pub struct ListenView {
    pub last: Option<StateView>,
    pub counter: nat,
    pub track: Option<Seq<char>>,
}

/// How a state found by a tick is handed on (after its artwork): the counter
/// and the track key have already been updated for the tick.
pub open spec fn deliver_spec(before: ListenView, st: StateView, after: ListenView, step: ListenStep) -> bool {
    &&& after.track == before.track
    &&& if should_update(before.last, st) {
        &&& after.last == Some(st)
        &&& after.counter == (if song_changed(before.last, st) {
            0
        } else {
            before.counter
        })
        &&& step matches ListenStep::Send(s) && s@ == st
    } else if before.counter >= LOG_FREQUENCY {
        &&& after.last == before.last
        &&& after.counter == 0
        &&& step matches ListenStep::Send(s) && s@ == st
    } else if before.counter % (QUIET_UPDATE_EVERY as nat) == 0 {
        &&& after.last == before.last
        &&& after.counter == before.counter
        &&& step matches ListenStep::Send(s) && s@ == st
    } else {
        &&& after.last == before.last
        &&& after.counter == before.counter
        &&& step is Wait
    }
}

/// The polled state of a song already seen, with the artwork of the last state
/// sent when it has none of its own and that state has some.
pub open spec fn reused_artwork(last: Option<StateView>, st: StateView) -> StateView {
    match last {
        Some(l) => if st.artwork_data is None && l.artwork_data is Some {
            StateView { artwork_data: l.artwork_data, ..st }
        } else {
            st
        },
        None => st,
    }
}

/// One tick of the watch loop, by views: `polled` is what the players said.
/// A song whose key differs from the last one seen gets its artwork fetched
/// (when its player has an artwork script); the same song is delivered at
/// once, with the artwork of the last state sent.
pub open spec fn poll_spec(before: ListenView, polled: Option<StateView>, after: ListenView, step: ListenStep) -> bool {
    match polled {
        Some(st) => {
            let ticked = ListenView { counter: before.counter + 1, ..before };
            if before.track != Some(track_key(st)) {
                let fetched = ListenView { track: Some(track_key(st)), ..ticked };
                if artwork_source(st.player_name) != MediaPlayer::Unknown {
                    &&& after == fetched
                    &&& step matches ListenStep::FetchArtwork(s, p) && s@ == st && p == artwork_source(st.player_name)
                } else {
                    deliver_spec(fetched, st, after, step)
                }
            } else {
                deliver_spec(ticked, reused_artwork(before.last, st), after, step)
            }
        },
        None => {
            if before.last is Some {
                &&& after.last is None
                &&& after.counter == 0
                &&& after.track is None
                &&& step matches ListenStep::Send(s) && is_paused_view(s@)
            } else if before.counter + 1 >= LOG_FREQUENCY {
                &&& after == ListenView { counter: 0, ..before }
                &&& step matches ListenStep::Send(s) && is_paused_view(s@)
            } else {
                &&& after == ListenView { counter: before.counter + 1, ..before }
                &&& step is Wait
            }
        },
    }
}

impl ListenLoop {
    /// The memory by views.
    pub open spec fn view_of(&self) -> ListenView {
        ListenView {
            last: opt_state_view(self.last_state),
            counter: self.log_counter as nat,
            track: crate::player::opt_str_view(self.last_track_id),
        }
    }

    /// A loop that has sent nothing yet.
    pub fn new() -> (l: ListenLoop)
        ensures
            l.view_of().last is None,
            l.view_of().counter == 0,
            l.view_of().track is None,
    {
        ListenLoop { last_state: None, log_counter: 0, last_track_id: None }
    }

    fn key_of(st: &State) -> (k: String)
        ensures
            k@ == track_key(st@),
    {
        let dash = chars_of("-");
        let p = chars_of(st.player_name.as_str());
        let t = chars_of(st.title.as_str());
        let a = chars_of(st.artist.as_str());
        let k = concat(&concat(&concat(&concat(&p, &dash), &t), &dash), &a);
        string_of(&k)
    }

    fn source_of(name: &String) -> (m: MediaPlayer)
        ensures
            m == artwork_source(name@),
    {
        if same(&chars_of(name.as_str()), &chars_of("Music")) {
            MediaPlayer::Music
        } else if same(&chars_of(name.as_str()), &chars_of("Spotify")) {
            MediaPlayer::Spotify
        } else {
            MediaPlayer::Unknown
        }
    }

    fn deliver(&mut self, st: State) -> (step: ListenStep)
        ensures
            deliver_spec(old(self).view_of(), st@, final(self).view_of(), step),
    {
        if should_update_state(&self.last_state, &st) {
            let changed = match &self.last_state {
                None => true,
                Some(l) => !(l.title == st.title) || !(l.artist == st.artist),
            };
            if changed {
                self.log_counter = 0;
            }
            let sent = st.duplicate();
            self.last_state = Some(st);
            ListenStep::Send(sent)
        } else if self.log_counter >= LOG_FREQUENCY {
            self.log_counter = 0;
            ListenStep::Send(st)
        } else if self.log_counter % QUIET_UPDATE_EVERY == 0 {
            ListenStep::Send(st)
        } else {
            ListenStep::Wait
        }
    }

    /// One tick of the watch loop, with what the players said (`None`: nothing
    /// plays). A playing state whose song differs from the last one seen is
    /// remembered by its key and sent off to fetch its artwork when its player
    /// has an artwork script; the state is then delivered. A state of the same
    /// song is delivered at once, with the artwork of the last state sent.
    /// When nothing plays, a pause is sent once after playing, and again every
    /// 45 ticks.
    pub fn on_poll(&mut self, polled: Option<State>) -> (step: ListenStep)
        requires
            old(self).log_counter < u64::MAX,
        ensures
            poll_spec(old(self).view_of(), opt_state_view(polled), final(self).view_of(), step),
    {
        self.log_counter = self.log_counter + 1;
        match polled {
            Some(st) => {
                let key = Self::key_of(&st);
                let new_song = match &self.last_track_id {
                    Some(last_id) => !(*last_id == key),
                    None => true,
                };
                if new_song {
                    self.last_track_id = Some(key);
                    let source = Self::source_of(&st.player_name);
                    match source {
                        MediaPlayer::Unknown => self.deliver(st),
                        _ => ListenStep::FetchArtwork(st, source),
                    }
                } else {
                    let mut st = st;
                    if st.artwork_data.is_none() {
                        if let Some(last) = &self.last_state {
                            if last.artwork_data.is_some() {
                                st.artwork_data = copy_opt_bytes(&last.artwork_data);
                            }
                        }
                    }
                    self.deliver(st)
                }
            },
            None => {
                if self.last_state.is_some() {
                    self.last_state = None;
                    self.log_counter = 0;
                    self.last_track_id = None;
                    ListenStep::Send(State::paused())
                } else if self.log_counter >= LOG_FREQUENCY {
                    self.log_counter = 0;
                    ListenStep::Send(State::paused())
                } else {
                    ListenStep::Wait
                }
            },
        }
    }

    /// The state of this tick, with its artwork fetched.
    pub fn on_artwork(&mut self, st: State) -> (step: ListenStep)
        ensures
            deliver_spec(old(self).view_of(), st@, final(self).view_of(), step),
    {
        self.deliver(st)
    }
}

} // verus!

verus! {

/// A state never counts as a change of itself.
pub proof fn law_state_never_replaces_itself(s: StateView)
    ensures
        !should_update(Some(s), s),
{
}

/// Whether one state replaces another does not depend on which came first.
pub proof fn law_update_is_symmetric(a: StateView, b: StateView)
    ensures
        should_update(Some(a), b) == should_update(Some(b), a),
{
}

/// A position that moves by five seconds or less is not a change by itself.
pub proof fn law_small_moves_are_not_changes(a: StateView, b: StateView)
    requires
        a.title == b.title,
        a.artist == b.artist,
        a.player_name == b.player_name,
        a.timeline matches Some(x) && b.timeline matches Some(y) && (x.0 <= y.0 + SEEK_THRESHOLD_NANOS && y.0 <= x.0 + SEEK_THRESHOLD_NANOS),
    ensures
        !should_update(Some(a), b),
{
}

proof fn lemma_decimal2_short(n: nat)
    requires
        n < 100,
    ensures
        decimal2(n).len() == 2,
{
    if n >= 10 {
        assert(n / 10 < 10);
        assert(decimal(n / 10).len() == 1);
    }
}

/// Below a hundred minutes, a length of at least a second shows as five
/// characters `MM:SS`; below a second it shows as `--:--`.
pub proof fn law_duration_text_shape(n: nat)
    ensures
        Span::secs_of(n) == 0 ==> duration_text(Some(n)) == "--:--"@,
        1 <= Span::secs_of(n) < 6000 ==> duration_text(Some(n)).len() == 5 && duration_text(Some(n))[2] == ':',
{
    let secs = Span::secs_of(n);
    if 1 <= secs < 6000 {
        lemma_decimal2_short(secs / 60);
        lemma_decimal2_short(secs % 60);
    }
}

/// When playback stops, one pause is sent and the next idle tick sends nothing.
pub proof fn law_pause_sent_once(v0: ListenView, v1: ListenView, v2: ListenView, s1: ListenStep, s2: ListenStep)
    requires
        v0.last is Some,
        poll_spec(v0, None, v1, s1),
        poll_spec(v1, None, v2, s2),
    ensures
        s1 matches ListenStep::Send(p) && is_paused_view(p@),
        s2 is Wait,
        v2.last is None,
        v2.track is None,
{
}

/// A state that differs from the last one sent is always sent, and becomes the
/// last one sent.
pub proof fn law_changes_are_sent(before: ListenView, st: StateView, after: ListenView, step: ListenStep)
    requires
        deliver_spec(before, st, after, step),
        should_update(before.last, st),
    ensures
        step matches ListenStep::Send(s) && s@ == st,
        after.last == Some(st),
{
}

proof fn lemma_idle_count(v: Seq<ListenView>, steps: Seq<ListenStep>, k: int)
    requires
        v.len() == steps.len() + 1,
        0 <= k <= steps.len(),
        v[0].last is None,
        v[0].counter == 0,
        forall|i: int| 0 <= i < steps.len() ==> poll_spec(#[trigger] v[i], None, v[i + 1], steps[i]),
        forall|j: int| 0 <= j < k ==> (#[trigger] steps[j]) is Wait,
    ensures
        v[k].last is None,
        v[k].counter == k,
    decreases k,
{
    if k > 0 {
        lemma_idle_count(v, steps, k - 1);
        assert(poll_spec(v[k - 1], None, v[k], steps[k - 1]));
        assert(steps[k - 1] is Wait);
    }
}

/// While nothing plays, a pause is sent again at least every 45 ticks.
pub proof fn law_idle_reminder(v: Seq<ListenView>, steps: Seq<ListenStep>)
    requires
        v.len() == steps.len() + 1,
        v[0].last is None,
        v[0].counter == 0,
        forall|i: int| 0 <= i < steps.len() ==> poll_spec(#[trigger] v[i], None, v[i + 1], steps[i]),
        steps.len() >= LOG_FREQUENCY,
    ensures
        exists|i: int| 0 <= i < LOG_FREQUENCY && (#[trigger] steps[i] matches ListenStep::Send(s) && is_paused_view(s@)),
{
    let k = LOG_FREQUENCY - 1;
    if forall|j: int| 0 <= j < k ==> (#[trigger] steps[j]) is Wait {
        lemma_idle_count(v, steps, k as int);
        assert(poll_spec(v[k as int], None, v[k + 1], steps[k as int]));
        assert(steps[k as int] matches ListenStep::Send(s) && is_paused_view(s@));
    } else {
        let j = choose|j: int| 0 <= j < k && !((#[trigger] steps[j]) is Wait);
        assert(poll_spec(v[j], None, v[j + 1], steps[j]));
        assert(steps[j] matches ListenStep::Send(s) && is_paused_view(s@));
    }
}

/// A song's artwork is fetched once: after the first state of a new song was
/// delivered with the artwork fetched for it, a later state of the same song
/// (without artwork of its own) asks for no artwork and is sent, if at all,
/// with the artwork fetched before.
pub proof fn law_artwork_fetched_once(
    v0: ListenView,
    st: StateView,
    v1: ListenView,
    s1: ListenStep,
    fetched: StateView,
    v2: ListenView,
    s2: ListenStep,
    st2: StateView,
    v3: ListenView,
    s3: ListenStep,
)
    requires
        v0.track != Some(track_key(st)),
        v0.last matches Some(l) ==> track_key(l) != track_key(st),
        artwork_source(st.player_name) != MediaPlayer::Unknown,
        poll_spec(v0, Some(st), v1, s1),
        fetched == (StateView { artwork_data: fetched.artwork_data, ..st }),
        deliver_spec(v1, fetched, v2, s2),
        track_key(st2) == track_key(st),
        st2.artwork_data is None,
        poll_spec(v2, Some(st2), v3, s3),
    ensures
        s1 is FetchArtwork,
        s2 matches ListenStep::Send(x) && x@ == fetched,
        !(s3 is FetchArtwork),
        s3 matches ListenStep::Send(x) ==> x@.artwork_data == fetched.artwork_data,
{
    if let Some(l) = v0.last {
        assert(track_key(l) != track_key(st));
        assert(should_update(v0.last, fetched));
    }
}

/// One whole tick of the watch loop: the poll and, when it asked for artwork,
/// the delivery of the state with the artwork fetched (`fetched`, which
/// differs from the polled state in its artwork alone); `out` is what the
/// tick sends.
pub open spec fn tick_spec(
    before: ListenView,
    polled: Option<StateView>,
    mid: ListenView,
    first: ListenStep,
    fetched: StateView,
    after: ListenView,
    out: ListenStep,
) -> bool {
    &&& poll_spec(before, polled, mid, first)
    &&& match first {
        ListenStep::FetchArtwork(s, _) => {
            &&& fetched == (StateView { artwork_data: fetched.artwork_data, ..s@ })
            &&& deliver_spec(mid, fetched, after, out)
        },
        _ => {
            &&& after == mid
            &&& out == first
        },
    }
}

/// Whether a polled state was sent in the first `i` ticks since the start or
/// since the last pause sent.
pub open spec fn played_since_pause(polled: Seq<Option<StateView>>, outs: Seq<ListenStep>, i: int) -> bool
    decreases i,
{
    if i <= 0 {
        false
    } else if outs[i - 1] is Send {
        polled[i - 1] is Some
    } else {
        played_since_pause(polled, outs, i - 1)
    }
}

proof fn lemma_last_tracks_play(
    v: Seq<ListenView>,
    polled: Seq<Option<StateView>>,
    mids: Seq<ListenView>,
    firsts: Seq<ListenStep>,
    fetched: Seq<StateView>,
    outs: Seq<ListenStep>,
    k: int,
)
    requires
        v.len() == polled.len() + 1,
        mids.len() == polled.len(),
        firsts.len() == polled.len(),
        fetched.len() == polled.len(),
        outs.len() == polled.len(),
        v[0].last is None,
        forall|i: int|
            0 <= i < polled.len() ==> tick_spec(
                #[trigger] v[i],
                polled[i],
                mids[i],
                firsts[i],
                fetched[i],
                v[i + 1],
                outs[i],
            ),
        0 <= k <= polled.len(),
    ensures
        (v[k].last is Some) == played_since_pause(polled, outs, k),
    decreases k,
{
    if k > 0 {
        lemma_last_tracks_play(v, polled, mids, firsts, fetched, outs, k - 1);
        assert(tick_spec(v[k - 1], polled[k - 1], mids[k - 1], firsts[k - 1], fetched[k - 1], v[k], outs[k - 1]));
    }
}

/// From the start, and again after each pause, a tick that finds something
/// playing sends it at once (with its artwork); once a playing state was
/// sent, the first tick that finds nothing playing sends a pause.
pub proof fn law_first_state_and_pause_at_once(
    v: Seq<ListenView>,
    polled: Seq<Option<StateView>>,
    mids: Seq<ListenView>,
    firsts: Seq<ListenStep>,
    fetched: Seq<StateView>,
    outs: Seq<ListenStep>,
)
    requires
        v.len() == polled.len() + 1,
        mids.len() == polled.len(),
        firsts.len() == polled.len(),
        fetched.len() == polled.len(),
        outs.len() == polled.len(),
        v[0].last is None,
        forall|i: int|
            0 <= i < polled.len() ==> tick_spec(
                #[trigger] v[i],
                polled[i],
                mids[i],
                firsts[i],
                fetched[i],
                v[i + 1],
                outs[i],
            ),
    ensures
        forall|i: int|
            0 <= i < polled.len() && polled[i] is None && played_since_pause(polled, outs, i) ==> (
            #[trigger] outs[i] matches ListenStep::Send(s) && is_paused_view(s@)),
        forall|i: int|
            0 <= i < polled.len() && polled[i] is Some && !played_since_pause(polled, outs, i) ==> (
            #[trigger] outs[i] matches ListenStep::Send(s) && s@ == (StateView {
                artwork_data: s@.artwork_data,
                ..polled[i]->0
            })),
{
    assert forall|i: int|
        0 <= i < polled.len() && polled[i] is None && played_since_pause(polled, outs, i) implies (
        #[trigger] outs[i] matches ListenStep::Send(s) && is_paused_view(s@)) by {
        lemma_last_tracks_play(v, polled, mids, firsts, fetched, outs, i);
        assert(tick_spec(v[i], polled[i], mids[i], firsts[i], fetched[i], v[i + 1], outs[i]));
    }
    assert forall|i: int|
        0 <= i < polled.len() && polled[i] is Some && !played_since_pause(polled, outs, i) implies (
        #[trigger] outs[i] matches ListenStep::Send(s) && s@ == (StateView {
            artwork_data: s@.artwork_data,
            ..polled[i]->0
        })) by {
        lemma_last_tracks_play(v, polled, mids, firsts, fetched, outs, i);
        assert(tick_spec(v[i], polled[i], mids[i], firsts[i], fetched[i], v[i + 1], outs[i]));
    }
}

/// What a tick sends is the state it polled, changed in its artwork alone, or
/// the paused state.
pub open spec fn sent_ok(polled: Option<StateView>, out: ListenStep) -> bool {
    out matches ListenStep::Send(s) ==> (is_paused_view(s@) || (polled matches Some(st) && s@ == (StateView {
        artwork_data: s@.artwork_data,
        ..st
    })))
}

/// Everything the watch loop sends, over a whole run, is a state that the
/// players reported in that tick (its artwork aside), or the paused state.
pub proof fn law_sends_only_polled_or_paused(
    v: Seq<ListenView>,
    polled: Seq<Option<StateView>>,
    mids: Seq<ListenView>,
    firsts: Seq<ListenStep>,
    fetched: Seq<StateView>,
    outs: Seq<ListenStep>,
)
    requires
        v.len() == polled.len() + 1,
        mids.len() == polled.len(),
        firsts.len() == polled.len(),
        fetched.len() == polled.len(),
        outs.len() == polled.len(),
        forall|i: int|
            0 <= i < polled.len() ==> tick_spec(
                #[trigger] v[i],
                polled[i],
                mids[i],
                firsts[i],
                fetched[i],
                v[i + 1],
                outs[i],
            ),
    ensures
        forall|i: int| 0 <= i < polled.len() ==> sent_ok(#[trigger] polled[i], outs[i]),
{
    assert forall|i: int| 0 <= i < polled.len() implies sent_ok(#[trigger] polled[i], outs[i]) by {
        assert(tick_spec(v[i], polled[i], mids[i], firsts[i], fetched[i], v[i + 1], outs[i]));
    }
}

} // verus!
