use current_song::player::{AlbumInfo, MediaPlayer, PlayerError, PlayerListener, TrackInfo, Timeline};
use current_song::probe::{PlayerProbe, ProbeAction, ProbeReply};
use current_song::scripts::{
    MUSIC_RUNNING, MUSIC_STATE, MUSIC_TIMELINE, MUSIC_TRACK, SPOTIFY_RUNNING, SPOTIFY_STATE, SPOTIFY_TIMELINE,
    SPOTIFY_TRACK,
};
use current_song::span::Span;

fn info() -> TrackInfo {
    TrackInfo {
        title: "Song".to_string(),
        artist: "Band".to_string(),
        album: AlbumInfo { title: "Record".to_string(), track_count: 12 },
        track_number: Some(4),
    }
}

#[test]
fn all_players_falls_back_to_music() {
    let (mut p, a) = PlayerProbe::all_players(&PlayerListener::default());
    assert!(matches!(a, ProbeAction::Run(s) if s == SPOTIFY_RUNNING));
    let a = p.on_reply(ProbeReply::Text(Ok("false".to_string())));
    assert!(matches!(a, ProbeAction::Run(s) if s == MUSIC_RUNNING));
    let a = p.on_reply(ProbeReply::Text(Ok(" true\n".to_string())));
    assert!(matches!(a, ProbeAction::Run(s) if s == MUSIC_STATE));
    let a = p.on_reply(ProbeReply::Text(Ok("playing".to_string())));
    assert!(matches!(a, ProbeAction::RunForTrack(s) if s == MUSIC_TRACK));
    let a = p.on_reply(ProbeReply::Track(Ok(info())));
    assert!(matches!(a, ProbeAction::RunForTimeline(s) if s == MUSIC_TIMELINE));
    match p.on_reply(ProbeReply::Timeline(Err(PlayerError::AppleScript("no".to_string())))) {
        ProbeAction::Done(Some(st)) => {
            assert_eq!(st.player_name, "Music");
            assert_eq!(st.title, "Song");
            assert_eq!(st.artist, "Band");
            assert_eq!(st.album.as_ref().unwrap().title, "Record");
            assert_eq!(st.album.as_ref().unwrap().track_count, 12);
            assert_eq!(st.track_number, Some(4));
            assert!(st.timeline.is_none());
            assert!(st.artwork_data.is_none());
            assert!(st.track_id.is_none());
        }
        other => panic!("unexpected {:?}", other),
    }
}

#[test]
fn spotify_playing_is_reported_with_timeline() {
    let (mut p, _) = PlayerProbe::spotify();
    assert!(matches!(p.on_reply(ProbeReply::Text(Ok("true".to_string()))), ProbeAction::Run(s) if s == SPOTIFY_STATE));
    assert!(matches!(p.on_reply(ProbeReply::Text(Ok("playing".to_string()))), ProbeAction::RunForTrack(s) if s == SPOTIFY_TRACK));
    assert!(matches!(p.on_reply(ProbeReply::Track(Ok(info()))), ProbeAction::RunForTimeline(s) if s == SPOTIFY_TIMELINE));
    let tl = Timeline { progress: Span::from_secs(30), duration: Span::from_secs(200) };
    match p.on_reply(ProbeReply::Timeline(Ok(tl))) {
        ProbeAction::Done(Some(st)) => {
            assert_eq!(st.player_name, "Spotify");
            assert_eq!(st.timeline, Some(tl));
        }
        other => panic!("unexpected {:?}", other),
    }
}

#[test]
fn failures_end_with_nothing() {
    let (mut p, _) = PlayerProbe::spotify();
    assert!(matches!(p.on_reply(ProbeReply::Text(Err(PlayerError::AppleScript("x".into())))), ProbeAction::Done(None)));
    let (mut q, _) = PlayerProbe::music();
    assert!(matches!(q.on_reply(ProbeReply::Text(Ok("true".into()))), ProbeAction::Run(_)));
    assert!(matches!(q.on_reply(ProbeReply::Text(Ok("paused".into()))), ProbeAction::Done(None)));
    let (mut r, _) = PlayerProbe::music();
    r.on_reply(ProbeReply::Text(Ok("true".into())));
    r.on_reply(ProbeReply::Text(Ok("playing".into())));
    assert!(matches!(r.on_reply(ProbeReply::Track(Err(PlayerError::AppleScript("bad".into())))), ProbeAction::Done(None)));
}

#[test]
fn listed_players_are_asked_in_list_order() {
    let listener = PlayerListener::new(vec!["Music".to_string(), "Spotify".to_string()], 1000);
    let (mut p, a) = PlayerProbe::all_players(&listener);
    assert!(matches!(a, ProbeAction::Run(s) if s == MUSIC_RUNNING));
    let a = p.on_reply(ProbeReply::Text(Ok("false".to_string())));
    assert!(matches!(a, ProbeAction::Run(s) if s == SPOTIFY_RUNNING));
    let a = p.on_reply(ProbeReply::Text(Ok("false".to_string())));
    assert!(matches!(a, ProbeAction::Done(None)));
}

#[test]
fn music_only_list_never_asks_spotify() {
    let listener = PlayerListener::new(vec!["Music".to_string()], 1000);
    let (mut p, a) = PlayerProbe::all_players(&listener);
    assert!(matches!(a, ProbeAction::Run(s) if s == MUSIC_RUNNING));
    let a = p.on_reply(ProbeReply::Text(Ok("false".to_string())));
    assert!(matches!(a, ProbeAction::Done(None)));
}

#[test]
fn unknown_players_are_passed_over() {
    let names = vec!["VLC".to_string(), "Spotify".to_string(), "music".to_string()];
    assert_eq!(PlayerProbe::players_of(&names), vec![MediaPlayer::Spotify]);
    let listener = PlayerListener::new(vec!["VLC".to_string()], 1000);
    let (_, a) = PlayerProbe::all_players(&listener);
    assert!(matches!(a, ProbeAction::Done(None)));
}
