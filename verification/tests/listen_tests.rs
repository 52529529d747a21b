use current_song::listen::{format_duration, should_update_state, ListenLoop, ListenStep};
use current_song::player::{Album, MediaPlayer, State, Timeline};
use current_song::span::{Span, Timestamp};

fn state(player: &str, title: &str, artist: &str, progress_ms: u64) -> State {
    State {
        title: title.to_string(),
        artist: artist.to_string(),
        album: Some(Album { title: "Album".to_string(), track_count: 10 }),
        track_id: None,
        track_number: Some(3),
        timeline: Some(Timeline { progress: Span::from_millis(progress_ms), duration: Span::from_millis(200_000) }),
        player_name: player.to_string(),
        timestamp: Timestamp { secs: 0, nanos: 0 },
        artwork_data: None,
    }
}

#[test]
fn first_state_is_always_an_update() {
    assert!(should_update_state(&None, &state("Spotify", "a", "b", 0)));
}

#[test]
fn same_state_is_not_an_update() {
    let s = state("Spotify", "a", "b", 1000);
    assert!(!should_update_state(&Some(s.clone()), &s));
}

#[test]
fn seeking_more_than_five_seconds_is_an_update() {
    let last = Some(state("Spotify", "a", "b", 1000));
    assert!(should_update_state(&last, &state("Spotify", "a", "b", 7000)));
    assert!(!should_update_state(&last, &state("Spotify", "a", "b", 6000)));
    let mut later = state("Spotify", "a", "b", 6000);
    later.timeline = Some(Timeline { progress: Span::new(6, 1), duration: Span::from_secs(200) });
    assert!(should_update_state(&last, &later));
    let mut no_tl = state("Spotify", "a", "b", 1000);
    no_tl.timeline = None;
    assert!(should_update_state(&last, &no_tl));
    assert!(should_update_state(&last, &state("Music", "a", "b", 1000)));
    assert!(should_update_state(&last, &state("Spotify", "a", "c", 1000)));
}

#[test]
fn durations_show_as_minutes_and_seconds() {
    assert_eq!(format_duration(&None), "--:--");
    assert_eq!(format_duration(&Some(Span::from_millis(500))), "--:--");
    assert_eq!(format_duration(&Some(Span::from_secs(9))), "00:09");
    assert_eq!(format_duration(&Some(Span::from_secs(65))), "01:05");
    assert_eq!(format_duration(&Some(Span::from_secs(3599))), "59:59");
    assert_eq!(format_duration(&Some(Span::from_secs(6000))), "100:00");
}

#[test]
fn watch_loop_sends_changes_quiet_updates_and_one_pause() {
    let mut lp = ListenLoop::new();
    let s = state("Spotify", "Song", "Band", 1000);
    let fetched = match lp.on_poll(Some(s.clone())) {
        ListenStep::FetchArtwork(st, MediaPlayer::Spotify) => st.with_artwork(Some(vec![0xFF, 0xD8, 7])),
        other => panic!("unexpected {:?}", other),
    };
    assert!(matches!(lp.on_artwork(fetched), ListenStep::Send(_)));
    assert_eq!(lp.log_counter, 0);
    assert_eq!(lp.last_track_id, Some("Spotify-Song-Band".to_string()));
    // the same song again: its artwork is not fetched again, and nothing changed
    for tick in 1..=4 {
        assert!(matches!(lp.on_poll(Some(s.clone())), ListenStep::Wait), "tick {}", tick);
    }
    // a quiet position update every fifth tick, with the artwork fetched before
    match lp.on_poll(Some(s.clone())) {
        ListenStep::Send(st) => assert_eq!(st.artwork_data, Some(vec![0xFF, 0xD8, 7])),
        other => panic!("unexpected {:?}", other),
    }
    match lp.on_poll(None) {
        ListenStep::Send(p) => {
            assert_eq!(p.title, "");
            assert_eq!(p.player_name, "");
            assert!(p.timeline.is_none());
        }
        other => panic!("unexpected {:?}", other),
    }
    assert!(matches!(lp.on_poll(None), ListenStep::Wait));
    assert!(lp.last_state.is_none());
}

#[test]
fn idle_loop_reminds_every_45_ticks() {
    let mut lp = ListenLoop::new();
    for _ in 0..44 {
        assert!(matches!(lp.on_poll(None), ListenStep::Wait));
    }
    assert!(matches!(lp.on_poll(None), ListenStep::Send(_)));
    assert_eq!(lp.log_counter, 0);
}

#[test]
fn unknown_player_is_delivered_without_artwork() {
    let mut lp = ListenLoop::new();
    let s = state("Vox", "Song", "Band", 0);
    match lp.on_poll(Some(s.clone())) {
        ListenStep::Send(st) => assert_eq!(st, s),
        other => panic!("unexpected {:?}", other),
    }
}

#[test]
fn known_artwork_is_not_fetched_again() {
    let mut lp = ListenLoop::new();
    let mut s = state("Music", "Song", "Band", 0);
    s.artwork_data = Some(vec![0xFF, 0xD8, 1, 2]);
    match lp.on_poll(Some(s.clone())) {
        ListenStep::FetchArtwork(st, MediaPlayer::Music) => assert!(matches!(lp.on_artwork(st), ListenStep::Send(_))),
        other => panic!("unexpected {:?}", other),
    }
    // same song with artwork: delivered directly (counter 1, no change: wait)
    assert!(matches!(lp.on_poll(Some(s.clone())), ListenStep::Wait));
}

#[test]
fn update_decision_is_symmetric() {
    let a = state("Spotify", "a", "b", 1000);
    let b = state("Spotify", "a", "b", 9000);
    let c = state("Music", "x", "y", 1000);
    assert_eq!(should_update_state(&Some(a.clone()), &b), should_update_state(&Some(b.clone()), &a));
    assert_eq!(should_update_state(&Some(a.clone()), &c), should_update_state(&Some(c.clone()), &a));
}

#[test]
fn artwork_is_attached_without_touching_the_rest() {
    let s = state("Music", "a", "b", 1000);
    let t = s.clone().with_artwork(Some(vec![1, 2, 3]));
    assert_eq!(t.artwork_data, Some(vec![1, 2, 3]));
    assert_eq!(State { artwork_data: None, ..t }, s);
    let p = State::paused();
    assert!(p.title.is_empty() && p.artist.is_empty() && p.album.is_none() && p.artwork_data.is_none());
    assert!(p.timestamp.secs > 0);
}

#[test]
fn seeking_in_the_same_song_keeps_its_artwork() {
    let mut lp = ListenLoop::new();
    let s = state("Music", "Song", "Band", 1000);
    match lp.on_poll(Some(s.clone())) {
        ListenStep::FetchArtwork(st, MediaPlayer::Music) => {
            assert!(matches!(lp.on_artwork(st.with_artwork(Some(vec![1, 2]))), ListenStep::Send(_)))
        }
        other => panic!("unexpected {:?}", other),
    }
    match lp.on_poll(Some(state("Music", "Song", "Band", 60_000))) {
        ListenStep::Send(st) => {
            assert_eq!(st.artwork_data, Some(vec![1, 2]));
            assert_eq!(st.timeline.unwrap().progress, Span::from_millis(60_000));
        }
        other => panic!("unexpected {:?}", other),
    }
}

#[test]
fn a_new_song_gets_its_artwork_fetched() {
    let mut lp = ListenLoop::new();
    match lp.on_poll(Some(state("Music", "One", "Band", 0))) {
        ListenStep::FetchArtwork(st, _) => {
            lp.on_artwork(st);
        }
        other => panic!("unexpected {:?}", other),
    }
    assert!(matches!(lp.on_poll(Some(state("Music", "Two", "Band", 0))), ListenStep::FetchArtwork(_, MediaPlayer::Music)));
}
