use current_song::artwork::{looks_like_image, music_artwork_file, music_artwork_reply, spotify_artwork_reply, MusicArtwork};
use current_song::player::PlayerError;

#[test]
fn music_reply_points_to_file() {
    match music_artwork_reply(Ok("TEMP_FILE:/tmp/music_artwork.jpg".to_string())) {
        MusicArtwork::ReadFile(p) => assert_eq!(p, "/tmp/music_artwork.jpg"),
        other => panic!("unexpected {:?}", other),
    }
    match music_artwork_reply(Ok("TEMP_FILE:TEMP_FILE:/x".to_string())) {
        MusicArtwork::ReadFile(p) => assert_eq!(p, "/x"),
        other => panic!("unexpected {:?}", other),
    }
}

#[test]
fn music_reply_without_artwork() {
    assert!(matches!(music_artwork_reply(Ok("ERROR:no track".to_string())), MusicArtwork::Ready(None)));
    assert!(matches!(music_artwork_reply(Ok(String::new())), MusicArtwork::Ready(None)));
    assert!(matches!(music_artwork_reply(Ok("abcd".to_string())), MusicArtwork::Ready(None)));
    assert!(matches!(
        music_artwork_reply(Err(PlayerError::AppleScript("failed".to_string()))),
        MusicArtwork::Ready(None)
    ));
}

#[test]
fn artwork_files_must_be_images() {
    assert_eq!(music_artwork_file(Some(vec![0xFF, 0xD8, 0, 0])), Some(vec![0xFF, 0xD8, 0, 0]));
    assert_eq!(music_artwork_file(Some(vec![0x89, 0x50, 0x4E, 0x47, 1])), Some(vec![0x89, 0x50, 0x4E, 0x47, 1]));
    assert_eq!(music_artwork_file(Some(vec![0xFF, 0xD8, 0])), None);
    assert_eq!(music_artwork_file(Some(vec![1, 2, 3, 4])), None);
    assert_eq!(music_artwork_file(Some(vec![])), None);
    assert_eq!(music_artwork_file(None), None);
    assert!(!looks_like_image(&[0x89, 0x50, 0x4E, 0x48]));
}

#[test]
fn spotify_reply_bytes() {
    assert_eq!(spotify_artwork_reply(Ok("xyz".to_string())), Some(b"xyz".to_vec()));
    assert_eq!(spotify_artwork_reply(Ok("é".to_string())), Some(vec![0xC3, 0xA9]));
    assert_eq!(spotify_artwork_reply(Ok(String::new())), None);
    assert_eq!(spotify_artwork_reply(Err(PlayerError::AppleScript(String::new()))), None);
}
