use current_song::browser::{
    create_play_info, parse_media_tabs, pick_active_tab, pick_active_tab_index, tabs_from_listing,
    audio_reply_state, AudioState, BrowserMacOsWorker, BrowserReport, BrowserTab, MonitorStep,
    BROWSER_TRACK_MS,
};

fn tab(title: &str, url: &str, browser: &str) -> BrowserTab {
    BrowserTab { title: title.to_string(), url: url.to_string(), browser_name: browser.to_string() }
}

fn song(t: &str, a: &str, p: &str) -> Option<(String, String, String)> {
    Some((t.to_string(), a.to_string(), p.to_string()))
}

#[test]
fn youtube_music_title_artist() {
    let t = tab("Song Name - Artist - YouTube Music", "https://music.youtube.com/watch?v=1", "Safari");
    assert_eq!(t.get_music_info(), song("Song Name", "Artist", "youtube-music"));
}

#[test]
fn youtube_music_falls_back_to_generic() {
    let t = tab("Just A Title - YouTube Music", "https://music.youtube.com/watch?v=1", "Safari");
    assert_eq!(t.get_music_info(), song("Just A Title", "youtube-music", "youtube-music"));
}

#[test]
fn youtube_strips_suffix_and_counter_prefix() {
    let t = tab(
        "(78) Never Gonna Give You Up - Rick Astley - YouTube",
        "https://www.youtube.com/watch?v=dQw",
        "Chrome",
    );
    assert_eq!(t.get_music_info(), song("Never Gonna Give You Up", "Rick Astley", "youtube"));
}

#[test]
fn youtube_without_dash_uses_whole_title() {
    let t = tab("Lofi Radio - YouTube", "https://www.youtube.com/watch?v=x", "Chrome");
    assert_eq!(t.get_music_info(), song("Lofi Radio", "YouTube", "youtube"));
}

#[test]
fn youtube_keeps_long_parenthesis_prefix() {
    let t = tab("(this is long) X - Y - YouTube", "https://www.youtube.com/watch?v=x", "Chrome");
    assert_eq!(t.get_music_info(), song("(this is long) X", "Y", "youtube"));
}

#[test]
fn youtube_prefix_limit_counts_bytes() {
    // five two-byte letters put the closing parenthesis at byte 11
    let t = tab("(ñññññ) Song - Band - YouTube", "https://www.youtube.com/watch?v=x", "Chrome");
    assert_eq!(t.get_music_info(), song("(ñññññ) Song", "Band", "youtube"));
    let u = tab("(ññ) Song - Band - YouTube", "https://www.youtube.com/watch?v=x", "Chrome");
    assert_eq!(u.get_music_info(), song("Song", "Band", "youtube"));
}

#[test]
fn soundcloud_artist_then_title() {
    let t = tab("Daft Punk - One More Time | SoundCloud", "https://soundcloud.com/daft/omt", "Safari");
    assert_eq!(t.get_music_info(), song("One More Time", "Daft Punk", "soundcloud"));
    let u = tab("Artist - Song | Stream on the web", "https://soundcloud.com/a/s", "Safari");
    assert_eq!(u.get_music_info(), song("Song", "Artist", "soundcloud"));
    let w = tab("Just a set", "https://soundcloud.com/a/s", "Safari");
    assert_eq!(w.get_music_info(), song("Just a set", "SoundCloud", "soundcloud"));
}

#[test]
fn bandcamp_comma_by() {
    let t = tab("Song Title, by Band Name", "https://band.bandcamp.com/track/x", "Safari");
    assert_eq!(t.get_music_info(), song("Song Title", "Band Name", "bandcamp"));
    let u = tab("Album | Band", "https://band.bandcamp.com/album/x", "Safari");
    assert_eq!(u.get_music_info(), None);
}

#[test]
fn spotify_web_player() {
    let t = tab("Spotify Web Player: Song - Artist", "https://open.spotify.com/", "Safari");
    assert_eq!(t.get_music_info(), song("Song", "Artist", "spotify-web"));
    let u = tab("Spotify Web Player", "https://open.spotify.com/track/abc", "Safari");
    assert_eq!(u.get_music_info(), song("Spotify Track", "Spotify", "spotify-web"));
}

#[test]
fn generic_pages_use_browser_provider() {
    let t = tab("Tune - Maker", "https://example.com/player", "Safari");
    assert_eq!(t.get_music_info(), song("Tune", "Maker", "browser-safari"));
    let u = tab("Radio", "https://example.com/audio/live", "Brave Browser");
    assert_eq!(u.get_music_info(), song("Radio", "browser-brave browser", "browser-brave browser"));
    let n = tab("News", "https://example.com/news", "Safari");
    assert_eq!(n.get_music_info(), None);
}

#[test]
fn generic_extraction_removes_suffix() {
    let t = tab("", "", "Safari");
    assert_eq!(
        t.extract_generic_title_dash_artist("Song - Band | YouTube Music".to_string(), "YouTube Music"),
        song("Song", "Band", "youtube-music")
    );
    assert_eq!(t.extract_generic_title_dash_artist("".to_string(), ""), None);
    assert_eq!(
        t.extract_generic_title_dash_artist(" - Band".to_string(), ""),
        song(" - Band", "browser-safari", "browser-safari")
    );
}

#[test]
fn listing_output_is_parsed_line_by_line() {
    let out = "  Title A|https://a.com/music\nno bar line\nTitle B | https://b.com/audio | extra\r\n|https://empty.com\n";
    let tabs = parse_media_tabs(out, "Safari");
    assert_eq!(tabs, vec![tab("Title A", "https://a.com/music", "Safari"), tab("Title B", "https://b.com/audio", "Safari")]);
    assert!(tabs_from_listing(false, out, "Safari").is_empty());
    assert_eq!(tabs_from_listing(true, out, "Safari").len(), 2);
}

#[test]
fn audio_states_from_replies() {
    assert_eq!(AudioState::from_reply("true-muted"), AudioState::Muted);
    assert_eq!(AudioState::from_reply("true-unmuted"), AudioState::Unmuted);
    assert_eq!(AudioState::from_reply("whatever"), AudioState::Silent);
    assert_eq!(audio_reply_state(true, " true-likely\n"), AudioState::Likely);
    assert_eq!(audio_reply_state(false, "true-likely"), AudioState::Silent);
}

#[test]
fn unmuted_soundcloud_tab_wins() {
    let tabs = vec![
        tab("a", "https://www.youtube.com/watch?v=1", "S"),
        tab("b", "https://soundcloud.com/x", "S"),
        tab("c", "https://example.com/player", "S"),
    ];
    let states = vec![AudioState::Muted, AudioState::Unmuted, AudioState::Unmuted];
    assert_eq!(pick_active_tab_index(&tabs, &states), Some(1));
    assert_eq!(pick_active_tab(&tabs, &states), Some(tabs[1].clone()));
    let states2 = vec![AudioState::Unmuted, AudioState::Silent, AudioState::Unmuted];
    assert_eq!(pick_active_tab_index(&tabs, &states2), Some(0));
    let states3 = vec![AudioState::Silent, AudioState::Muted, AudioState::Muted];
    assert_eq!(pick_active_tab_index(&tabs, &states3), Some(1));
}

#[test]
fn silent_tabs_ranked_by_service() {
    let tabs = vec![
        tab("s", "https://open.spotify.com/track/1", "S"),
        tab("y1", "https://www.youtube.com/watch?v=1", "S"),
        tab("m", "https://music.youtube.com/watch?v=2", "S"),
        tab("y2", "https://www.youtube.com/watch?v=3", "S"),
    ];
    let silent = vec![AudioState::Silent; 4];
    assert_eq!(pick_active_tab_index(&tabs, &silent), Some(3));
    let others = vec![tab("a", "https://a.com/music", "S"), tab("b", "https://b.com/audio", "S"), tab("c", "https://c.com/player", "S")];
    assert_eq!(pick_active_tab_index(&others, &vec![AudioState::Silent, AudioState::Media, AudioState::Likely]), Some(2));
    assert_eq!(pick_active_tab_index(&others, &vec![AudioState::Active, AudioState::Media, AudioState::Silent]), Some(1));
    assert_eq!(pick_active_tab_index(&others, &vec![AudioState::Silent; 3]), Some(0));
    assert_eq!(pick_active_tab_index(&vec![], &vec![]), None);
}

#[test]
fn play_info_sources_and_fallbacks() {
    let p = create_play_info("  ".to_string(), "Artist".to_string(), "youtube".to_string());
    assert_eq!(p.title, "Desconocido");
    assert_eq!(p.artist, "Artist");
    assert_eq!(p.source, "browser-youtube");
    assert_eq!(p.progress_ms, 0);
    assert_eq!(p.duration_ms, BROWSER_TRACK_MS);
    assert_eq!(create_play_info("a".into(), "b".into(), "spotify-web".into()).source, "browser-spotify");
    assert_eq!(create_play_info("a".into(), "b".into(), "youtube-music".into()).source, "browser-youtube-music");
    assert_eq!(create_play_info("a".into(), "".into(), "Deezer".into()).source, "browser-deezer");
    assert_eq!(create_play_info("a".into(), "".into(), "Deezer".into()).artist, "Desconocido");
}

#[test]
fn monitor_reports_play_then_pause_once() {
    let mut m = BrowserMacOsWorker::new(vec!["Safari".to_string(), "Chrome".to_string()]);
    assert!(matches!(m.on_apple_music(false), MonitorStep::AskBrowser(0)));
    assert!(matches!(m.on_browser_tab(0, None), MonitorStep::AskBrowser(1)));
    let t = tab("Song - Band - YouTube", "https://www.youtube.com/watch?v=1", "Chrome");
    match m.on_browser_tab(1, Some(t)) {
        MonitorStep::Finish(Some(BrowserReport::Playing(p))) => {
            assert_eq!(p.title, "Song");
            assert_eq!(p.artist, "Band");
            assert_eq!(p.source, "browser-youtube");
        }
        other => panic!("unexpected {:?}", other),
    }
    assert!(!m.paused());
    assert!(matches!(m.on_apple_music(true), MonitorStep::Finish(Some(BrowserReport::Paused))));
    assert!(matches!(m.on_apple_music(true), MonitorStep::Finish(None)));
}

#[test]
fn monitor_keeps_remembered_tab() {
    let mut m = BrowserMacOsWorker::new(vec!["Safari".to_string()]);
    let t = tab("Daft Punk - Around | SoundCloud", "https://soundcloud.com/d/a", "Safari");
    assert!(matches!(m.on_apple_music(false), MonitorStep::AskBrowser(0)));
    assert!(matches!(m.on_browser_tab(0, Some(t.clone())), MonitorStep::Finish(Some(BrowserReport::Playing(_)))));
    assert!(matches!(m.on_apple_music(false), MonitorStep::AskBrowser(0)));
    match m.on_browser_tab(0, None) {
        MonitorStep::CheckTabOpen(r) => assert_eq!(r, t),
        other => panic!("unexpected {:?}", other),
    }
    assert!(matches!(m.on_tab_open(true), MonitorStep::Finish(None)));
    assert!(matches!(m.on_apple_music(false), MonitorStep::AskBrowser(0)));
    assert!(matches!(m.on_browser_tab(0, None), MonitorStep::CheckTabOpen(_)));
    assert!(matches!(m.on_tab_open(false), MonitorStep::Finish(Some(BrowserReport::Paused))));
    assert!(m.paused());
    assert!(matches!(m.on_apple_music(false), MonitorStep::AskBrowser(0)));
    assert!(matches!(m.on_browser_tab(0, None), MonitorStep::Finish(None)));
}

#[test]
fn monitor_tab_without_song_stops_search() {
    let mut m = BrowserMacOsWorker::new(vec!["Safari".to_string(), "Chrome".to_string()]);
    assert!(matches!(m.on_apple_music(false), MonitorStep::AskBrowser(0)));
    let t = tab("News", "https://example.com/news", "Safari");
    assert!(matches!(m.on_browser_tab(0, Some(t)), MonitorStep::Finish(None)));
    let mut empty = BrowserMacOsWorker::new(vec![]);
    assert!(matches!(empty.on_apple_music(false), MonitorStep::Finish(None)));
}
