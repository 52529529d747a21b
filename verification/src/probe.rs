//! Asking Spotify and Music what they play, one script at a time.
use vstd::prelude::*;

use crate::player::{Album, MediaPlayer, PlayerError, PlayerListener, State, StateView, Timeline, TrackInfo};
use crate::player::timeline_view;
use crate::scripts::{
    trimmed_is, MUSIC_RUNNING, MUSIC_STATE, MUSIC_TIMELINE, MUSIC_TRACK, SPOTIFY_RUNNING,
    SPOTIFY_STATE, SPOTIFY_TIMELINE, SPOTIFY_TRACK,
};
use crate::span::now;
use crate::text::{chars_of, same, trim};

verus! {

/// How far the questions to a player have got.
#[derive(Debug, Clone, Copy, PartialEq, Eq, Structural)]
pub enum ProbePhase {
    /// Is the player running?
    Running,
    /// Is it playing?
    Playing,
    /// Which track?
    Track,
    /// Where in the track?
    Timeline,
    /// No more questions.
    Finished,
}

/// The answer to the last question asked.
#[derive(Debug)]
pub enum ProbeReply {
    /// The text a script printed.
    Text(Result<String, PlayerError>),
    /// The track read from a script's JSON output.
    Track(Result<TrackInfo, PlayerError>),
    /// The timeline read from a script's JSON output.
    Timeline(Result<Timeline, PlayerError>),
}

/// What to do next.
#[derive(Debug)]
pub enum ProbeAction {
    /// Run this script and reply with its text.
    Run(&'static str),
    /// Run this script and reply with the track read from its JSON output.
    RunForTrack(&'static str),
    /// Run this script and reply with the timeline read from its JSON output.
    RunForTimeline(&'static str),
    /// The questions are over: this is what plays, if anything.
    Done(Option<State>),
}

/// The script that asks whether a player runs.
pub open spec fn running_script(p: MediaPlayer) -> &'static str {
    if p == MediaPlayer::Spotify {
        SPOTIFY_RUNNING
    } else {
        MUSIC_RUNNING
    }
}

/// The script that asks for a player's state.
pub open spec fn state_script(p: MediaPlayer) -> &'static str {
    if p == MediaPlayer::Spotify {
        SPOTIFY_STATE
    } else {
        MUSIC_STATE
    }
}

/// The script that asks for a player's track, as JSON.
pub open spec fn track_script(p: MediaPlayer) -> &'static str {
    if p == MediaPlayer::Spotify {
        SPOTIFY_TRACK
    } else {
        MUSIC_TRACK
    }
}

/// The script that asks for a player's position and track length, as JSON.
pub open spec fn timeline_script(p: MediaPlayer) -> &'static str {
    if p == MediaPlayer::Spotify {
        SPOTIFY_TIMELINE
    } else {
        MUSIC_TIMELINE
    }
}

/// The name a player's states carry.
pub open spec fn player_label(p: MediaPlayer) -> Seq<char> {
    if p == MediaPlayer::Spotify {
        "Spotify"@
    } else {
        "Music"@
    }
}

/// The state built from what a player said of its track and timeline (any time stamp).
pub open spec fn playing_state(s: StateView, p: MediaPlayer, info: TrackInfo, tl: Option<Timeline>) -> bool {
    &&& s.player_name == player_label(p)
    &&& s.title == info.title@
    &&& s.artist == info.artist@
    &&& s.album == Some((info.album.title@, info.album.track_count))
    &&& s.track_number == info.track_number
    &&& s.timeline == timeline_view(tl)
    &&& s.artwork_data is None
    &&& s.track_id is None
}

/// Whether the reply answers the question of the phase.
pub open spec fn answers(phase: ProbePhase, reply: ProbeReply) -> bool {
    match phase {
        ProbePhase::Running | ProbePhase::Playing => reply is Text,
        ProbePhase::Track => reply is Track,
        ProbePhase::Timeline => reply is Timeline,
        ProbePhase::Finished => false,
    }
}

/// The player a name of the listener's list stands for, when it is one that
/// can be asked.
pub open spec fn known_player(name: Seq<char>) -> Option<MediaPlayer> {
    if name == "Spotify"@ {
        Some(MediaPlayer::Spotify)
    } else if name == "Music"@ {
        Some(MediaPlayer::Music)
    } else {
        None
    }
}

/// The players to ask for a list of names, in the list's order: each name of a
/// player that can be asked, as often as it is listed; other names are passed over.
pub open spec fn players_to_ask(names: Seq<String>) -> Seq<MediaPlayer>
    decreases names.len(),
{
    if names.len() == 0 {
        Seq::empty()
    } else {
        let rest = players_to_ask(names.drop_last());
        match known_player(names.last()@) {
            Some(p) => rest.push(p),
            None => rest,
        }
    }
}

/// Whether scripts exist to ask the player.
pub open spec fn askable(p: MediaPlayer) -> bool {
    p == MediaPlayer::Spotify || p == MediaPlayer::Music
}

/// Whether every player of the list can be asked.
pub open spec fn all_askable(order: Seq<MediaPlayer>) -> bool {
    forall|i: int| 0 <= i < order.len() ==> askable(#[trigger] order[i])
}

proof fn lemma_players_to_ask_askable(names: Seq<String>)
    ensures
        all_askable(players_to_ask(names)),
    decreases names.len(),
{
    if names.len() > 0 {
        lemma_players_to_ask_askable(names.drop_last());
        let rest = players_to_ask(names.drop_last());
        let all = players_to_ask(names);
        assert forall|i: int| 0 <= i < all.len() implies askable(#[trigger] all[i]) by {
            if i < rest.len() {
                assert(all[i] == rest[i]);
            }
        }
    }
}

/// The questions to a list of players about what they play: each player in
/// turn, until one plays.
pub struct PlayerProbe {
    /// The players to ask, in order.
    pub order: Vec<MediaPlayer>,
    /// The index in `order` of the player being asked.
    pub at: usize,
    pub phase: ProbePhase,
    /// The track, once the player told it.
    pub track: Option<TrackInfo>,
}

impl PlayerProbe {
    /// A well-formed probe: it asks players that can be asked, one of its list
    /// until it is finished, and knows the track once it asks for the timeline.
    pub open spec fn wf(&self) -> bool {
        &&& all_askable(self.order@)
        &&& self.at <= self.order@.len()
        &&& self.phase != ProbePhase::Finished ==> self.at < self.order@.len()
        &&& self.phase == ProbePhase::Timeline ==> self.track is Some
    }

    /// The player being asked.
    pub open spec fn current(&self) -> MediaPlayer {
        self.order@[self.at as int]
    }

    /// A probe that has just started on `order`: it asks whether the first
    /// player runs, or is finished with nothing when the list is empty.
    pub open spec fn started(p: PlayerProbe, a: ProbeAction, order: Seq<MediaPlayer>) -> bool {
        &&& p.wf()
        &&& p.order@ == order
        &&& p.at == 0
        &&& p.track is None
        &&& if order.len() > 0 {
            &&& p.phase == ProbePhase::Running
            &&& a matches ProbeAction::Run(s) && s == running_script(order[0])
        } else {
            &&& p.phase == ProbePhase::Finished
            &&& a matches ProbeAction::Done(None)
        }
    }

    fn running_of(p: MediaPlayer) -> (s: &'static str)
        ensures
            s == running_script(p),
    {
        match p {
            MediaPlayer::Spotify => SPOTIFY_RUNNING,
            _ => MUSIC_RUNNING,
        }
    }

    fn state_of(p: MediaPlayer) -> (s: &'static str)
        ensures
            s == state_script(p),
    {
        match p {
            MediaPlayer::Spotify => SPOTIFY_STATE,
            _ => MUSIC_STATE,
        }
    }

    fn track_of(p: MediaPlayer) -> (s: &'static str)
        ensures
            s == track_script(p),
    {
        match p {
            MediaPlayer::Spotify => SPOTIFY_TRACK,
            _ => MUSIC_TRACK,
        }
    }

    fn timeline_of(p: MediaPlayer) -> (s: &'static str)
        ensures
            s == timeline_script(p),
    {
        match p {
            MediaPlayer::Spotify => SPOTIFY_TIMELINE,
            _ => MUSIC_TIMELINE,
        }
    }

    fn start(order: Vec<MediaPlayer>) -> (r: (PlayerProbe, ProbeAction))
        requires
            all_askable(order@),
        ensures
            Self::started(r.0, r.1, order@),
    {
        if order.len() > 0 {
            let s = Self::running_of(order[0]);
            (PlayerProbe { order, at: 0, phase: ProbePhase::Running, track: None }, ProbeAction::Run(s))
        } else {
            (PlayerProbe { order, at: 0, phase: ProbePhase::Finished, track: None }, ProbeAction::Done(None))
        }
    }

    /// Questions to Spotify alone.
    pub fn spotify() -> (r: (PlayerProbe, ProbeAction))
        ensures
            Self::started(r.0, r.1, seq![MediaPlayer::Spotify]),
            r.1 matches ProbeAction::Run(s) && s == SPOTIFY_RUNNING,
    {
        let mut order: Vec<MediaPlayer> = Vec::new();
        order.push(MediaPlayer::Spotify);
        assert(order@ =~= seq![MediaPlayer::Spotify]);
        Self::start(order)
    }

    /// Questions to Music alone.
    pub fn music() -> (r: (PlayerProbe, ProbeAction))
        ensures
            Self::started(r.0, r.1, seq![MediaPlayer::Music]),
            r.1 matches ProbeAction::Run(s) && s == MUSIC_RUNNING,
    {
        let mut order: Vec<MediaPlayer> = Vec::new();
        order.push(MediaPlayer::Music);
        assert(order@ =~= seq![MediaPlayer::Music]);
        Self::start(order)
    }

    fn known_player_of(name: &String) -> (r: Option<MediaPlayer>)
        ensures
            r == known_player(name@),
    {
        let n = chars_of(name.as_str());
        if same(&n, &chars_of("Spotify")) {
            Some(MediaPlayer::Spotify)
        } else if same(&n, &chars_of("Music")) {
            Some(MediaPlayer::Music)
        } else {
            None
        }
    }

    /// The players of a list of names that can be asked, in the list's order.
    pub fn players_of(names: &Vec<String>) -> (v: Vec<MediaPlayer>)
        ensures
            v@ == players_to_ask(names@),
    {
        let mut v: Vec<MediaPlayer> = Vec::new();
        let mut i: usize = 0;
        while i < names.len()
            invariant
                i <= names.len(),
                v@ == players_to_ask(names@.take(i as int)),
            decreases names.len() - i,
        {
            let k = Self::known_player_of(&names[i]);
            assert(names@.take(i + 1).drop_last() =~= names@.take(i as int));
            assert(names@.take(i + 1).last() == names@[i as int]);
            match k {
                Some(p) => v.push(p),
                None => {},
            }
            i = i + 1;
        }
        assert(names@.take(names.len() as int) =~= names@);
        v
    }

    /// Questions to the players of the listener's list, in the list's order:
    /// each in turn, until one plays.
    pub fn all_players(listener: &PlayerListener) -> (r: (PlayerProbe, ProbeAction))
        ensures
            Self::started(r.0, r.1, players_to_ask(listener.player_names())),
    {
        let order = Self::players_of(listener.players());
        proof {
            lemma_players_to_ask_askable(listener.player_names());
        }
        Self::start(order)
    }

    /// What happens when the current player plays nothing: the next player of
    /// the list is asked whether it runs, or, after the last one, the questions
    /// end with nothing.
    pub open spec fn gave_up(before: PlayerProbe, after: PlayerProbe, a: ProbeAction) -> bool {
        &&& after.order@ == before.order@
        &&& after.at == before.at + 1
        &&& after.track is None
        &&& if before.at + 1 < before.order@.len() {
            &&& after.phase == ProbePhase::Running
            &&& a matches ProbeAction::Run(s) && s == running_script(before.order@[before.at + 1])
        } else {
            &&& after.phase == ProbePhase::Finished
            &&& a matches ProbeAction::Done(None)
        }
    }

    fn give_up(&mut self) -> (a: ProbeAction)
        requires
            old(self).wf(),
            old(self).phase != ProbePhase::Finished,
        ensures
            final(self).wf(),
            Self::gave_up(*old(self), *final(self), a),
    {
        let count = self.order.len();
        assert(self.at < count);
        self.at = self.at + 1;
        self.track = None;
        if self.at < self.order.len() {
            self.phase = ProbePhase::Running;
            ProbeAction::Run(Self::running_of(self.order[self.at]))
        } else {
            self.phase = ProbePhase::Finished;
            ProbeAction::Done(None)
        }
    }

    /// One answer, by the probe before and after it and the next action.
    pub open spec fn reply_spec(before: PlayerProbe, reply: ProbeReply, after: PlayerProbe, a: ProbeAction) -> bool {
        match (before.phase, reply) {
            (ProbePhase::Running, ProbeReply::Text(r)) => if r matches Ok(out) && trim(out@) == "true"@ {
                &&& after.order@ == before.order@
                &&& after.at == before.at
                &&& after.phase == ProbePhase::Playing
                &&& a matches ProbeAction::Run(s) && s == state_script(before.current())
            } else {
                Self::gave_up(before, after, a)
            },
            (ProbePhase::Playing, ProbeReply::Text(r)) => if r matches Ok(out) && trim(out@) == "playing"@ {
                &&& after.order@ == before.order@
                &&& after.at == before.at
                &&& after.phase == ProbePhase::Track
                &&& a matches ProbeAction::RunForTrack(s) && s == track_script(before.current())
            } else {
                Self::gave_up(before, after, a)
            },
            (ProbePhase::Track, ProbeReply::Track(r)) => match r {
                Ok(info) => {
                    &&& after.order@ == before.order@
                    &&& after.at == before.at
                    &&& after.phase == ProbePhase::Timeline
                    &&& after.track == Some(info)
                    &&& a matches ProbeAction::RunForTimeline(s) && s == timeline_script(before.current())
                },
                Err(_) => Self::gave_up(before, after, a),
            },
            (ProbePhase::Timeline, ProbeReply::Timeline(r)) => {
                &&& after.order@ == before.order@
                &&& after.at == before.at
                &&& after.phase == ProbePhase::Finished
                &&& a matches ProbeAction::Done(Some(st)) && playing_state(
                    st@,
                    before.current(),
                    before.track->0,
                    match r { Ok(t) => Some(t), Err(_) => None },
                )
            },
            _ => false,
        }
    }

    /// Goes on with the answer to the last question: a player that is not
    /// running, not playing or whose track cannot be read plays nothing, and the
    /// next player of the list is asked; once the track is known the timeline
    /// is asked for, and the state is built with the timeline if it could be read.
    pub fn on_reply(&mut self, reply: ProbeReply) -> (a: ProbeAction)
        requires
            old(self).wf(),
            answers(old(self).phase, reply),
        ensures
            final(self).wf(),
            Self::reply_spec(*old(self), reply, *final(self), a),
    {
        let player = self.order[self.at];
        match reply {
            ProbeReply::Text(r) => {
                let expected = match self.phase {
                    ProbePhase::Running => "true",
                    _ => "playing",
                };
                let ok = match &r {
                    Ok(out) => trimmed_is(out.as_str(), expected),
                    Err(_) => false,
                };
                if !ok {
                    return self.give_up();
                }
                match self.phase {
                    ProbePhase::Running => {
                        self.phase = ProbePhase::Playing;
                        ProbeAction::Run(Self::state_of(player))
                    },
                    _ => {
                        self.phase = ProbePhase::Track;
                        ProbeAction::RunForTrack(Self::track_of(player))
                    },
                }
            },
            ProbeReply::Track(r) => match r {
                Ok(info) => {
                    self.track = Some(info);
                    self.phase = ProbePhase::Timeline;
                    ProbeAction::RunForTimeline(Self::timeline_of(player))
                },
                Err(_) => self.give_up(),
            },
            ProbeReply::Timeline(r) => {
                let timeline = match r {
                    Ok(t) => Some(t),
                    Err(_) => None,
                };
                let info = self.track.take().unwrap();
                self.phase = ProbePhase::Finished;
                let name = match player {
                    MediaPlayer::Spotify => String::from_str("Spotify"),
                    _ => String::from_str("Music"),
                };
                let st = State {
                    player_name: name,
                    title: info.title,
                    artist: info.artist,
                    album: Some(Album { title: info.album.title, track_count: info.album.track_count }),
                    track_number: info.track_number,
                    timeline,
                    artwork_data: None,
                    timestamp: now(),
                    track_id: None,
                };
                ProbeAction::Done(Some(st))
            },
        }
    }
}

} // verus!

verus! {

/// Whether a reply is the text `word`, up to surrounding whitespace.
pub open spec fn said(r: ProbeReply, word: Seq<char>) -> bool {
    r matches ProbeReply::Text(Ok(o)) && trim(o@) == word
}

/// The track a reply tells, if it tells one.
pub open spec fn track_told(r: ProbeReply) -> Option<TrackInfo> {
    match r {
        ProbeReply::Track(Ok(info)) => Some(info),
        _ => None,
    }
}

/// The timeline a reply tells, if it tells one.
pub open spec fn timeline_told(r: ProbeReply) -> Option<Timeline> {
    match r {
        ProbeReply::Timeline(Ok(t)) => Some(t),
        _ => None,
    }
}

/// What asking one player finds, given each player's answer to each question
/// (`answer`): its track, with its timeline when it could be read, if the
/// player runs, plays and tells its track; else nothing.
pub open spec fn player_outcome(
    p: MediaPlayer,
    answer: spec_fn(MediaPlayer, ProbePhase) -> ProbeReply,
) -> Option<(TrackInfo, Option<Timeline>)> {
    if said(answer(p, ProbePhase::Running), "true"@) && said(answer(p, ProbePhase::Playing), "playing"@)
        && track_told(answer(p, ProbePhase::Track)) is Some {
        Some((track_told(answer(p, ProbePhase::Track))->0, timeline_told(answer(p, ProbePhase::Timeline))))
    } else {
        None
    }
}

/// The first player of `order`, from index `k` on, whose asking finds
/// something: its index and what it found.
pub open spec fn first_outcome(
    order: Seq<MediaPlayer>,
    k: int,
    answer: spec_fn(MediaPlayer, ProbePhase) -> ProbeReply,
) -> Option<(int, TrackInfo, Option<Timeline>)>
    decreases order.len() - k,
{
    if k < 0 || k >= order.len() {
        None
    } else {
        match player_outcome(order[k], answer) {
            Some((info, tl)) => Some((k, info, tl)),
            None => first_outcome(order, k + 1, answer),
        }
    }
}

proof fn lemma_first_skip(order: Seq<MediaPlayer>, answer: spec_fn(MediaPlayer, ProbePhase) -> ProbeReply, k: int)
    requires
        0 <= k <= order.len(),
        forall|j: int| 0 <= j < k ==> (#[trigger] player_outcome(order[j], answer)) is None,
    ensures
        first_outcome(order, 0, answer) == first_outcome(order, k, answer),
    decreases k,
{
    if k > 0 {
        lemma_first_skip(order, answer, k - 1);
        assert(player_outcome(order[k - 1], answer) is None);
    }
}

/// What a run of questions has established when the probe is at `p` and the
/// last action was `a`: every player before the current one found nothing,
/// the current one answered the questions already asked as a playing player
/// would, and a finished probe gave the answer of the first player that plays.
spec fn run_inv(
    p: PlayerProbe,
    a: ProbeAction,
    order: Seq<MediaPlayer>,
    answer: spec_fn(MediaPlayer, ProbePhase) -> ProbeReply,
) -> bool {
    let cur = order[p.at as int];
    &&& p.order@ == order
    &&& p.at <= order.len()
    &&& p.phase == ProbePhase::Timeline ==> p.track is Some
    &&& forall|j: int| 0 <= j < p.at ==> (#[trigger] player_outcome(order[j], answer)) is None
    &&& p.phase != ProbePhase::Finished ==> p.at < order.len() && !(a is Done)
    &&& (p.phase == ProbePhase::Playing || p.phase == ProbePhase::Track || p.phase == ProbePhase::Timeline)
        ==> said(answer(cur, ProbePhase::Running), "true"@)
    &&& (p.phase == ProbePhase::Track || p.phase == ProbePhase::Timeline) ==> said(
        answer(cur, ProbePhase::Playing),
        "playing"@,
    )
    &&& p.phase == ProbePhase::Timeline ==> track_told(answer(cur, ProbePhase::Track)) == p.track
    &&& p.phase == ProbePhase::Finished ==> finished_with(p, a, order, answer)
}

/// A finished probe: nothing when it went through the whole list, else the
/// state of the player it stopped at, built from what that player found.
spec fn finished_with(
    p: PlayerProbe,
    a: ProbeAction,
    order: Seq<MediaPlayer>,
    answer: spec_fn(MediaPlayer, ProbePhase) -> ProbeReply,
) -> bool {
    match a {
        ProbeAction::Done(None) => p.at == order.len(),
        ProbeAction::Done(Some(s)) => p.at < order.len() && match player_outcome(order[p.at as int], answer) {
            Some((info, tl)) => playing_state(s@, order[p.at as int], info, tl),
            None => false,
        },
        _ => false,
    }
}

proof fn lemma_run_step(
    p: PlayerProbe,
    a: ProbeAction,
    r: ProbeReply,
    q: PlayerProbe,
    b: ProbeAction,
    order: Seq<MediaPlayer>,
    answer: spec_fn(MediaPlayer, ProbePhase) -> ProbeReply,
)
    requires
        run_inv(p, a, order, answer),
        PlayerProbe::reply_spec(p, r, q, b),
        r == answer(p.current(), p.phase),
    ensures
        run_inv(q, b, order, answer),
{
    let cur = order[p.at as int];
    if q.at == p.at + 1 {
        assert(player_outcome(cur, answer) is None);
        assert forall|j: int| 0 <= j < q.at implies (#[trigger] player_outcome(order[j], answer)) is None by {
            if j < p.at {
            } else {
                assert(j == p.at);
            }
        }
    }
}

proof fn lemma_run(
    probes: Seq<PlayerProbe>,
    replies: Seq<ProbeReply>,
    actions: Seq<ProbeAction>,
    answer: spec_fn(MediaPlayer, ProbePhase) -> ProbeReply,
    k: int,
)
    requires
        probes.len() == replies.len() + 1,
        actions.len() == probes.len(),
        PlayerProbe::started(probes[0], actions[0], probes[0].order@),
        forall|i: int|
            0 <= i < replies.len() ==> PlayerProbe::reply_spec(
                #[trigger] probes[i],
                replies[i],
                probes[i + 1],
                actions[i + 1],
            ) && replies[i] == answer(probes[i].current(), probes[i].phase),
        0 <= k < probes.len(),
    ensures
        run_inv(probes[k], actions[k], probes[0].order@, answer),
    decreases k,
{
    if k > 0 {
        lemma_run(probes, replies, actions, answer, k - 1);
        assert(PlayerProbe::reply_spec(probes[k - 1], replies[k - 1], probes[k], actions[k]));
        lemma_run_step(probes[k - 1], actions[k - 1], replies[k - 1], probes[k], actions[k], probes[0].order@, answer);
    }
}

/// The listed players are asked in the list's order, each only after the ones
/// before it found nothing; when the questions end, the answer is the state of
/// the first listed player that runs, plays and tells its track, and nothing
/// when none does. (`answer` gives each player's answer to each question.)
pub proof fn law_first_playing_player_answers(
    probes: Seq<PlayerProbe>,
    replies: Seq<ProbeReply>,
    actions: Seq<ProbeAction>,
    answer: spec_fn(MediaPlayer, ProbePhase) -> ProbeReply,
)
    requires
        probes.len() == replies.len() + 1,
        actions.len() == probes.len(),
        PlayerProbe::started(probes[0], actions[0], probes[0].order@),
        forall|i: int|
            0 <= i < replies.len() ==> PlayerProbe::reply_spec(
                #[trigger] probes[i],
                replies[i],
                probes[i + 1],
                actions[i + 1],
            ) && replies[i] == answer(probes[i].current(), probes[i].phase),
        actions.last() is Done,
    ensures
        actions.last() matches ProbeAction::Done(r) && match first_outcome(probes[0].order@, 0, answer) {
            None => r is None,
            Some((k, info, tl)) => r matches Some(s) && playing_state(s@, probes[0].order@[k], info, tl),
        },
{
    let n = probes.len() - 1;
    let order = probes[0].order@;
    lemma_run(probes, replies, actions, answer, n);
    let p = probes[n];
    lemma_first_skip(order, answer, p.at as int);
}

/// The default list asks Spotify, then Music: the answer is Spotify's when
/// Spotify plays, else Music's, else nothing.
pub proof fn law_spotify_then_music(names: Seq<String>, answer: spec_fn(MediaPlayer, ProbePhase) -> ProbeReply)
    requires
        names.len() == 2,
        names[0]@ == "Spotify"@,
        names[1]@ == "Music"@,
    ensures
        players_to_ask(names) == seq![MediaPlayer::Spotify, MediaPlayer::Music],
        first_outcome(players_to_ask(names), 0, answer) == match player_outcome(MediaPlayer::Spotify, answer) {
            Some((info, tl)) => Some((0int, info, tl)),
            None => match player_outcome(MediaPlayer::Music, answer) {
                Some((info, tl)) => Some((1int, info, tl)),
                None => None,
            },
        },
{
    reveal_strlit("Spotify");
    reveal_strlit("Music");
    assert("Music"@.len() != "Spotify"@.len());
    let n1 = names.drop_last();
    assert(n1.drop_last() =~= Seq::<String>::empty());
    assert(players_to_ask(n1.drop_last()) == Seq::<MediaPlayer>::empty());
    assert(n1.last() == names[0]);
    assert(known_player(names[0]@) == Some(MediaPlayer::Spotify));
    assert(known_player(names[1]@) == Some(MediaPlayer::Music));
    assert(players_to_ask(n1) =~= seq![MediaPlayer::Spotify]);
    assert(players_to_ask(names) =~= seq![MediaPlayer::Spotify, MediaPlayer::Music]);
    let order = seq![MediaPlayer::Spotify, MediaPlayer::Music];
    assert(first_outcome(order, 2, answer) is None);
    assert(order[0] == MediaPlayer::Spotify);
    assert(order[1] == MediaPlayer::Music);
    assert(first_outcome(order, 1, answer) == match player_outcome(MediaPlayer::Music, answer) {
        Some((info, tl)) => Some((1int, info, tl)),
        None => None,
    });
}

} // verus!
