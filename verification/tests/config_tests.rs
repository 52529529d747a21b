use current_song::config::{
    app_dir_under, bool_false, bool_true, current_config_path, default_config_paths, settle_loaded, SettledPath, joined_path, settle_config,
    BindConfig, Config, ConfigSearch, FileOutputConfig, FilterConfig, FilterMode, MprisConfig, OpenOutcome,
    SearchStep, ServerConfig, DEFAULT_PORT, OPEN_ERROR, PARSE_ERROR, READ_ERROR,
};

#[test]
fn defaults() {
    let c = Config::default();
    assert!(c.no_autostart);
    assert!(matches!(c.server.bind, BindConfig::Single { port: 48457 }));
    assert_eq!(DEFAULT_PORT, 48457);
    assert_eq!(c.server.custom_theme_path, "theme.css");
    assert_eq!(c.modules.macos.players, vec!["Spotify".to_string(), "Music".to_string()]);
    assert!(c.modules.macos.enabled);
    assert!(c.modules.dbus.enabled);
    assert_eq!(c.modules.dbus.destinations, vec!["org.mpris.MediaPlayer2.*".to_string()]);
    let f = FileOutputConfig::default();
    assert!(!f.enabled);
    assert_eq!(f.path, "current_song.txt");
    assert_eq!(f.format.when_playing, "{title} - {artist}");
    assert_eq!(f.format.when_paused, "");
    let fl = FilterConfig::default();
    assert_eq!(fl.mode, FilterMode::Exclude);
    assert_eq!(fl.items, vec!["chrome.exe".to_string(), "msedge.exe".to_string(), "firefox.exe".to_string()]);
    assert!(MprisConfig::default().enabled);
    assert_eq!(ServerConfig::default().custom_theme_path, "theme.css");
    assert!(bool_true());
    assert!(!bool_false());
}

#[test]
fn config_paths() {
    let p = default_config_paths(Some(b"/Users/me/Library/Application Support/CurrentSong2".to_vec()));
    assert_eq!(p[0], b"/Users/me/Library/Application Support/CurrentSong2/config.toml".to_vec());
    assert_eq!(p[1], b"config.toml".to_vec());
    assert_eq!(default_config_paths(Some(b"dir/".to_vec()))[0], b"dir/config.toml".to_vec());
    let q = default_config_paths(None);
    assert_eq!(q[0], b"config.toml".to_vec());
    assert_eq!(q[1], b"config.toml".to_vec());
    assert_eq!(app_dir_under(Some(b"/home/u/.config".to_vec())), Some(b"/home/u/.config/CurrentSong2".to_vec()));
    // a directory that is not UTF-8 is kept as it is
    assert_eq!(app_dir_under(Some(vec![b'/', 0xFF, 0xFE])), Some(vec![b'/', 0xFF, 0xFE, b'/', b'C', b'u', b'r', b'r', b'e', b'n', b't', b'S', b'o', b'n', b'g', b'2']));
    assert_eq!(app_dir_under(None), None);
    assert_eq!(joined_path(b"", b"x"), b"x".to_vec());
    let mut settled = SettledPath::new();
    assert!(!settled.is_settled());
    settled.settle(b"/etc/config.toml".to_vec());
    assert!(settled.is_settled());
    assert_eq!(current_config_path(&settled), &b"/etc/config.toml".to_vec());
    settled.settle(b"config.toml".to_vec());
    assert_eq!(current_config_path(&settled), &b"/etc/config.toml".to_vec());
}

#[test]
fn search_reports_nothing_found() {
    let (mut s, step) = ConfigSearch::start(2);
    assert!(matches!(step, SearchStep::Open(0)));
    assert!(matches!(s.on_open(OpenOutcome::NotFound), SearchStep::Open(1)));
    assert!(matches!(s.on_open(OpenOutcome::NotFound), SearchStep::Failed(None)));
}

#[test]
fn search_blames_file_that_would_not_open() {
    let (mut s, _) = ConfigSearch::start(2);
    assert!(matches!(s.on_open(OpenOutcome::OpenFailed), SearchStep::Open(1)));
    assert!(matches!(s.on_open(OpenOutcome::NotFound), SearchStep::Failed(Some((0, m))) if m == OPEN_ERROR));
}

#[test]
fn search_stops_at_first_file() {
    let (mut s, _) = ConfigSearch::start(2);
    assert!(matches!(s.on_open(OpenOutcome::Read("x = 1".to_string())), SearchStep::Parse(0, t) if t == "x = 1"));
    let (mut s2, _) = ConfigSearch::start(2);
    s2.on_open(OpenOutcome::NotFound);
    assert!(matches!(s2.on_open(OpenOutcome::ReadFailed), SearchStep::Failed(Some((1, m))) if m == READ_ERROR));
    assert!(matches!(ConfigSearch::on_parsed(1, false), SearchStep::Failed(Some((1, m))) if m == PARSE_ERROR));
    assert!(matches!(ConfigSearch::on_parsed(1, true), SearchStep::Found(1)));
    assert!(matches!(ConfigSearch::start(0).1, SearchStep::Failed(None)));
}

#[test]
fn settling_the_configuration() {
    let mut c = Config::default();
    c.no_autostart = false;
    let (got, idx, write) = settle_config(Some((1, c)), None);
    assert!(!got.no_autostart && idx == 1 && !write);
    let (got, idx, write) = settle_config(None, Some(1));
    assert!(got.no_autostart && idx == 1 && !write);
    let (got, idx, write) = settle_config(None, None);
    assert!(got.no_autostart && idx == 0 && write);
}

#[test]
fn loading_settles_the_path_of_the_place_decided() {
    let paths = [b"/c/config.toml".to_vec(), b"config.toml".to_vec()];
    let mut settled = SettledPath::new();
    let (_, write) = settle_loaded(Some((1, Config::default())), None, &paths, &mut settled);
    assert!(!write);
    assert_eq!(current_config_path(&settled), &paths[1]);
    let mut fresh = SettledPath::new();
    let (_, write) = settle_loaded(None, None, &paths, &mut fresh);
    assert!(write);
    assert_eq!(current_config_path(&fresh), &paths[0]);
    let mut failed = SettledPath::new();
    let (_, write) = settle_loaded(None, Some(1), &paths, &mut failed);
    assert!(!write);
    assert_eq!(current_config_path(&failed), &paths[1]);
    // a second load leaves the path as it was
    settle_loaded(None, None, &paths, &mut failed);
    assert_eq!(current_config_path(&failed), &paths[1]);
}
