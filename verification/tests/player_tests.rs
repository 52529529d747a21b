use current_song::player::{MediaPlayer, PlayerListener};

#[test]
fn it_works() {
    assert_eq!(2 + 2, 4);
}

#[test]
fn default_listener_watches_spotify_then_music() {
    let l = PlayerListener::default();
    assert_eq!(l.interval().as_millis(), 1000);
    assert_eq!(l.players(), &vec!["Spotify".to_string(), "Music".to_string()]);
    assert_eq!(MediaPlayer::default(), MediaPlayer::Unknown);
}
