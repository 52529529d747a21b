use current_song::macos::{image_epoch, should_store, MacOsWorker, MacStep};
use current_song::player::{Album, State, Timeline};
use current_song::span::{Span, Timestamp};

fn song(title: &str, art: Option<Vec<u8>>) -> State {
    State {
        title: title.to_string(),
        artist: "Band".to_string(),
        album: Some(Album { title: "Rec".to_string(), track_count: 9 }),
        track_id: None,
        track_number: Some(2),
        timeline: Some(Timeline { progress: Span::from_millis(61_500), duration: Span::from_secs(180) }),
        player_name: "Spotify".to_string(),
        timestamp: Timestamp { secs: 1, nanos: 0 },
        artwork_data: art,
    }
}

#[test]
fn songs_are_reported_with_cover() {
    let mut t = MacOsWorker::new();
    let jpeg = vec![0xFF, 0xD8, 0, 1, 2, 3, 4, 5, 6, 7, 8];
    match t.on_state(song("A", Some(jpeg.clone()))) {
        MacStep::Play { info, cover, new_track } => {
            assert_eq!(info.source, "macos-spotify");
            assert_eq!(info.title, "A");
            assert_eq!(info.timeline_ms, Some((61_500, 180_000)));
            assert_eq!(info.track_number, Some(2));
            assert_eq!(info.album, Some(Album { title: "Rec".to_string(), track_count: 9 }));
            assert_eq!(cover, Some(("image/jpeg".to_string(), jpeg.clone())));
            assert!(new_track);
        }
        other => panic!("unexpected {:?}", other),
    }
    assert_eq!(t.current_track_id, Some("Spotify-A-Band".to_string()));
    match t.on_state(song("A", Some(vec![0x89, 0x50, 0x4E, 0x47, 0, 0, 0, 0, 0, 0, 0]))) {
        MacStep::Play { cover, new_track, .. } => {
            assert!(!new_track);
            assert_eq!(cover.unwrap().0, "image/png");
        }
        other => panic!("unexpected {:?}", other),
    }
    match t.on_state(song("B", Some(vec![0xFF, 0xD8, 0, 0, 0, 0, 0, 0, 0, 0]))) {
        MacStep::Play { cover, new_track, .. } => {
            assert!(new_track);
            assert_eq!(cover, None);
        }
        other => panic!("unexpected {:?}", other),
    }
}

#[test]
fn empty_states_pause_once() {
    let mut t = MacOsWorker::new();
    assert!(matches!(t.on_state(song("", None)), MacStep::Quiet));
    assert!(matches!(t.on_state(song("A", None)), MacStep::Play { .. }));
    assert!(matches!(t.on_state(song("", None)), MacStep::Pause));
    assert!(matches!(t.on_state(song("", None)), MacStep::Quiet));
    assert!(t.paused);
}

#[test]
fn cover_store_decisions() {
    assert!(!should_store(Some(10), 10, false));
    assert!(should_store(Some(10), 10, true));
    assert!(should_store(Some(10), 11, false));
    assert!(should_store(None, 10, false));
    assert_eq!(image_epoch(Some(3), Some(2)), 3);
    assert_eq!(image_epoch(None, Some(2)), 2);
    assert_eq!(image_epoch(None, None), 0);
}
