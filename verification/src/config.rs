//! The configuration: its parts and their defaults, where it is looked for,
//! and what is used when it cannot be read.
use vstd::prelude::*;



verus! {

/// Where the web server listens.
#[derive(Debug, Clone)]
pub enum BindConfig {
    /// On localhost, at this port.
    Single { port: u16 },
    /// On each of these addresses and ports.
    Multiple { bind: Vec<(String, u16)> },
}

/// The port used when none is configured.
pub const DEFAULT_PORT: u16 = 48457;

impl Default for BindConfig {
    fn default() -> (r: Self)
        ensures
            r matches BindConfig::Single { port } && port == DEFAULT_PORT,
    {
        BindConfig::Single { port: DEFAULT_PORT }
    }
}

/// The web server.
#[derive(Debug, Clone)]
pub struct ServerConfig {
    pub bind: BindConfig,
    pub custom_theme_path: String,
}

impl Default for ServerConfig {
    fn default() -> (r: Self)
        ensures
            r.bind matches BindConfig::Single { port } && port == DEFAULT_PORT,
            r.custom_theme_path@ == "theme.css"@,
    {
        ServerConfig { bind: BindConfig::default(), custom_theme_path: String::from_str("theme.css") }
    }
}

/// The text written to the output file while playing and while paused.
#[derive(Debug, Clone)]
pub struct FileOutputFormat {
    pub when_playing: String,
    pub when_paused: String,
}

impl Default for FileOutputFormat {
    fn default() -> (r: Self)
        ensures
            r.when_playing@ == "{title} - {artist}"@,
            r.when_paused@ == ""@,
    {
        FileOutputFormat {
            when_playing: String::from_str("{title} - {artist}"),
            when_paused: String::from_str(""),
        }
    }
}

/// Writing the current song to a file.
#[derive(Debug, Clone)]
pub struct FileOutputConfig {
    pub enabled: bool,
    pub path: String,
    pub format: FileOutputFormat,
}

impl Default for FileOutputConfig {
    fn default() -> (r: Self)
        ensures
            !r.enabled,
            r.path@ == "current_song.txt"@,
            r.format.when_playing@ == "{title} - {artist}"@,
            r.format.when_paused@ == ""@,
    {
        FileOutputConfig {
            enabled: false,
            path: String::from_str("current_song.txt"),
            format: FileOutputFormat::default(),
        }
    }
}

/// How the list of applications of a filter is used.
#[derive(Debug, Clone, Copy, PartialEq, Eq, Structural)]
pub enum FilterMode {
    /// Accept every application.
    Disabled,
    /// Accept only the listed applications.
    Include,
    /// Accept every application but the listed ones.
    Exclude,
}

/// A filter of applications.
#[derive(Debug, Clone)]
pub struct FilterConfig {
    pub mode: FilterMode,
    pub items: Vec<String>,
}

impl Default for FilterConfig {
    /// Browsers are left out by default: they mostly play videos, whose ads
    /// cannot be told apart.
    fn default() -> (r: Self)
        ensures
            r.mode == FilterMode::Exclude,
            r.items@.len() == 3,
            r.items@[0]@ == "chrome.exe"@,
            r.items@[1]@ == "msedge.exe"@,
            r.items@[2]@ == "firefox.exe"@,
    {
        FilterConfig {
            mode: FilterMode::Exclude,
            items: vec![
                String::from_str("chrome.exe"),
                String::from_str("msedge.exe"),
                String::from_str("firefox.exe"),
            ],
        }
    }
}

/// The D-Bus (MPRIS) module.
#[derive(Debug, Clone)]
pub struct DbusConfig {
    pub enabled: bool,
    pub destinations: Vec<String>,
}

impl Default for DbusConfig {
    fn default() -> (r: Self)
        ensures
            r.enabled,
            r.destinations@.len() == 1,
            r.destinations@[0]@ == "org.mpris.MediaPlayer2.*"@,
    {
        DbusConfig { enabled: true, destinations: vec![String::from_str("org.mpris.MediaPlayer2.*")] }
    }
}

/// The macOS player module.
#[derive(Debug, Clone)]
pub struct MacOsConfig {
    pub enabled: bool,
    pub players: Vec<String>,
}

impl Default for MacOsConfig {
    fn default() -> (r: Self)
        ensures
            r.enabled,
            r.players@.len() == 2,
            r.players@[0]@ == "Spotify"@,
            r.players@[1]@ == "Music"@,
    {
        MacOsConfig {
            enabled: true,
            players: vec![String::from_str("Spotify"), String::from_str("Music")],
        }
    }
}

/// The modules.
#[derive(Debug, Clone)]
pub struct ModuleConfig {
    pub dbus: DbusConfig,
    pub macos: MacOsConfig,
    pub file: FileOutputConfig,
}

impl Default for ModuleConfig {
    fn default() -> (r: Self)
        ensures
            r.dbus.enabled,
            r.dbus.destinations@.len() == 1,
            r.dbus.destinations@[0]@ == "org.mpris.MediaPlayer2.*"@,
            r.macos.enabled,
            r.macos.players@.len() == 2,
            r.macos.players@[0]@ == "Spotify"@,
            r.macos.players@[1]@ == "Music"@,
            !r.file.enabled,
            r.file.path@ == "current_song.txt"@,
            r.file.format.when_playing@ == "{title} - {artist}"@,
            r.file.format.when_paused@ == ""@,
    {
        ModuleConfig {
            dbus: DbusConfig::default(),
            macos: MacOsConfig::default(),
            file: FileOutputConfig::default(),
        }
    }
}

/// The whole configuration.
#[derive(Debug, Clone)]
pub struct Config {
    pub no_autostart: bool,
    pub modules: ModuleConfig,
    pub server: ServerConfig,
}

/// The configuration used when none was given.
pub open spec fn is_default_config(r: Config) -> bool {
    &&& r.no_autostart
    &&& r.modules.dbus.enabled
    &&& r.modules.dbus.destinations@.len() == 1
    &&& r.modules.dbus.destinations@[0]@ == "org.mpris.MediaPlayer2.*"@
    &&& r.modules.macos.enabled
    &&& r.modules.macos.players@.len() == 2
    &&& r.modules.macos.players@[0]@ == "Spotify"@
    &&& r.modules.macos.players@[1]@ == "Music"@
    &&& !r.modules.file.enabled
    &&& r.modules.file.path@ == "current_song.txt"@
    &&& r.modules.file.format.when_playing@ == "{title} - {artist}"@
    &&& r.modules.file.format.when_paused@ == ""@
    &&& r.server.bind matches BindConfig::Single { port } && port == DEFAULT_PORT
    &&& r.server.custom_theme_path@ == "theme.css"@
}

impl Default for Config {
    fn default() -> (r: Self)
        ensures
            is_default_config(r),
    {
        Config {
            no_autostart: true,
            modules: ModuleConfig::default(),
            server: ServerConfig::default(),
        }
    }
}

/// The MPRIS module.
#[derive(Debug, Clone)]
pub struct MprisConfig {
    pub enabled: bool,
    pub destinations: Vec<String>,
}

impl Default for MprisConfig {
    fn default() -> (r: Self)
        ensures
            r.enabled,
            r.destinations@.len() == 1,
            r.destinations@[0]@ == "org.mpris.MediaPlayer2.*"@,
    {
        MprisConfig { enabled: true, destinations: vec![String::from_str("org.mpris.MediaPlayer2.*")] }
    }
}

/// The value of a switch that is on unless configured.
pub fn bool_true() -> (b: bool)
    ensures
        b,
{
    true
}

/// The value of a switch that is off unless configured.
pub fn bool_false() -> (b: bool)
    ensures
        !b,
{
    false
}

/// The path of the configuration in use: unset until the configuration is
/// settled, then fixed for good. Paths are held as the platform's encoding of
/// OS strings (on Unix, the path's bytes), so any path can be held.
pub struct SettledPath {
    path: Option<Vec<u8>>,
}

/// The path after settling `p` on `before`: the first path settled stays.
pub open spec fn settle_spec(before: Option<Seq<u8>>, p: Seq<u8>) -> Option<Seq<u8>> {
    match before {
        Some(q) => Some(q),
        None => Some(p),
    }
}

impl SettledPath {
    /// The settled path, if any.
    pub closed spec fn settled(&self) -> Option<Seq<u8>> {
        match self.path {
            Some(p) => Some(p@),
            None => None,
        }
    }

    /// Nothing settled yet.
    pub fn new() -> (r: SettledPath)
        ensures
            r.settled() is None,
    {
        SettledPath { path: None }
    }

    /// Settles the path of the configuration: the first path settled stays,
    /// later ones change nothing.
    pub fn settle(&mut self, p: Vec<u8>)
        ensures
            final(self).settled() == settle_spec(old(self).settled(), p@),
    {
        if self.path.is_none() {
            self.path = Some(p);
        }
    }

    /// Whether a path is settled.
    pub fn is_settled(&self) -> (r: bool)
        ensures
            r == self.settled() is Some,
    {
        self.path.is_some()
    }
}

/// The path of the configuration in use, once it has been settled.
pub fn current_config_path(settled: &SettledPath) -> (p: &Vec<u8>)
    requires
        settled.settled() is Some,
    ensures
        settled.settled() == Some(p@),
{
    settled.path.as_ref().unwrap()
}

/// Once a path is settled, settling again changes nothing: every later read
/// of the path gives the first path settled.
pub proof fn law_settled_once(before: Option<Seq<u8>>, first: Seq<u8>, later: Seq<u8>)
    ensures
        settle_spec(None, first) == Some(first),
        settle_spec(settle_spec(before, first), later) == settle_spec(before, first),
{
}

/// The path separator, `/`.
pub open spec fn separator() -> u8 {
    0x2F
}

/// `dir` with `name` appended as a path component: a `/` is put between them
/// unless `dir` is empty or already ends with one (`PathBuf::push` of a
/// relative name).
pub open spec fn join_path(dir: Seq<u8>, name: Seq<u8>) -> Seq<u8> {
    if dir.len() > 0 && dir.last() != separator() {
        dir + seq![separator()] + name
    } else {
        dir + name
    }
}

/// `dir` with `name` appended as a path component.
pub fn joined_path(dir: &[u8], name: &[u8]) -> (p: Vec<u8>)
    ensures
        p@ == join_path(dir@, name@),
{
    let mut p = vstd::slice::slice_to_vec(dir);
    if dir.len() > 0 && dir[dir.len() - 1] != 0x2F {
        p.push(0x2F);
    }
    let mut n = vstd::slice::slice_to_vec(name);
    p.append(&mut n);
    p
}

/// The name of the configuration file, in bytes.
pub open spec fn config_file_name() -> Seq<u8> {
    vstd::utf8::encode_utf8("config.toml"@)
}

/// The name of this application's directory among the user's configuration
/// directories, in bytes.
pub open spec fn app_dir_name() -> Seq<u8> {
    vstd::utf8::encode_utf8("CurrentSong2"@)
}

/// The user's configuration directory of the operating system
/// (`dirs::config_dir`), in the platform's encoding of OS strings
/// (`OsString::into_encoded_bytes`; on Unix, the path's bytes); `None` when
/// the system has none. It depends on the environment and the platform:
/// nothing is claimed of it.
#[verifier::external_body]
fn os_config_dir() -> (r: Option<Vec<u8>>) {
    match dirs::config_dir() {
        Some(p) => Some(p.into_os_string().into_encoded_bytes()),
        None => None,
    }
}

/// This application's directory under a configuration directory.
pub fn app_dir_under(base: Option<Vec<u8>>) -> (r: Option<Vec<u8>>)
    ensures
        match base {
            Some(b) => r matches Some(p) && p@ == join_path(b@, app_dir_name()),
            None => r is None,
        },
{
    match base {
        Some(b) => Some(joined_path(b.as_slice(), "CurrentSong2".as_bytes())),
        None => None,
    }
}

/// This application's configuration directory (before it is created): under
/// the user's configuration directory, when the system has one.
pub fn app_config_dir() -> (r: Option<Vec<u8>>)
    ensures
        (r matches Some(p) ==> exists|b: Seq<u8>| p@ == join_path(b, app_dir_name())),
{
    let base = os_config_dir();
    let r = app_dir_under(base);
    proof {
        if r is Some {
            assert(r->0@ == join_path(base->0@, app_dir_name()));
        }
    }
    r
}

/// The places the configuration is looked for, in order: the file in this
/// application's configuration directory (when there is one), then
/// `config.toml` in the working directory.
pub fn default_config_paths(config_dir: Option<Vec<u8>>) -> (r: [Vec<u8>; 2])
    ensures
        match config_dir {
            Some(d) => r[0]@ == join_path(d@, config_file_name()),
            None => r[0]@ == config_file_name(),
        },
        r[1]@ == config_file_name(),
{
    let name = "config.toml".as_bytes();
    match config_dir {
        Some(d) => [joined_path(d.as_slice(), name), vstd::slice::slice_to_vec(name)],
        None => [vstd::slice::slice_to_vec(name), vstd::slice::slice_to_vec(name)],
    }
}

/// What opening (and reading) one candidate file gave.
#[derive(Debug)]
pub enum OpenOutcome {
    /// There is no such file.
    NotFound,
    /// The file exists but could not be opened.
    OpenFailed,
    /// The file was opened but could not be read.
    ReadFailed,
    /// The file's text.
    Read(String),
}

/// The message for a file whose text is not a valid configuration.
pub const PARSE_ERROR: &'static str = "Couldn't parse config";

/// The message for a file that could not be read.
pub const READ_ERROR: &'static str = "Couldn't read config file";

/// The message for a file that exists but could not be opened.
pub const OPEN_ERROR: &'static str = "File exists but couldn't be opened";

/// What the search for the configuration asks for next.
#[derive(Debug)]
pub enum SearchStep {
    /// Open and read the candidate with this index.
    Open(usize),
    /// Parse this text, read from the candidate with this index, and report
    /// whether it parsed.
    Parse(usize, String),
    /// The search failed: at a place, with a message, or (`None`) nowhere found.
    Failed(Option<(usize, &'static str)>),
    /// The candidate with this index holds the configuration.
    Found(usize),
}

/// The search for the configuration through the candidate places, in order:
/// the first file that opens decides; a file that exists but cannot be opened
/// is remembered, so that its place is blamed if no file opens.
pub struct ConfigSearch {
    pub count: usize,
    pub next: usize,
    pub last_failed: Option<usize>,
}

impl ConfigSearch {
    /// A search through `count` candidates; it asks for the first one.
    pub fn start(count: usize) -> (r: (ConfigSearch, SearchStep))
        ensures
            r.0.count == count,
            r.0.last_failed is None,
            count > 0 ==> r.0.next == 0 && (r.1 matches SearchStep::Open(i) && i == 0),
            count == 0 ==> r.1 matches SearchStep::Failed(None),
    {
        let s = ConfigSearch { count, next: 0, last_failed: None };
        if count > 0 {
            (s, SearchStep::Open(0))
        } else {
            (s, SearchStep::Failed(None))
        }
    }

    /// After the search ran out of candidates.
    pub open spec fn exhausted(last_failed: Option<usize>, s: SearchStep) -> bool {
        match last_failed {
            Some(i) => s matches SearchStep::Failed(Some((j, m))) && j == i && m == OPEN_ERROR,
            None => s matches SearchStep::Failed(None),
        }
    }

    /// What opening the candidate asked for gave.
    pub fn on_open(&mut self, outcome: OpenOutcome) -> (s: SearchStep)
        requires
            old(self).next < old(self).count,
        ensures
            final(self).count == old(self).count,
            match outcome {
                OpenOutcome::Read(text) => s matches SearchStep::Parse(i, t) && i == old(self).next && t@ == text@,
                OpenOutcome::ReadFailed => s matches SearchStep::Failed(Some((i, m))) && i == old(self).next && m == READ_ERROR,
                _ => {
                    let failed = if outcome is OpenFailed { Some(old(self).next) } else { old(self).last_failed };
                    &&& final(self).last_failed == failed
                    &&& final(self).next == old(self).next + 1
                    &&& if old(self).next + 1 < old(self).count {
                        s matches SearchStep::Open(i) && i == old(self).next + 1
                    } else {
                        Self::exhausted(failed, s)
                    }
                },
            },
    {
        match outcome {
            OpenOutcome::Read(text) => SearchStep::Parse(self.next, text),
            OpenOutcome::ReadFailed => SearchStep::Failed(Some((self.next, READ_ERROR))),
            OpenOutcome::NotFound | OpenOutcome::OpenFailed => {
                if let OpenOutcome::OpenFailed = outcome {
                    self.last_failed = Some(self.next);
                }
                self.next = self.next + 1;
                if self.next < self.count {
                    SearchStep::Open(self.next)
                } else {
                    match self.last_failed {
                        Some(i) => SearchStep::Failed(Some((i, OPEN_ERROR))),
                        None => SearchStep::Failed(None),
                    }
                }
            },
        }
    }

    /// Whether the text of the candidate `index` parsed.
    pub fn on_parsed(index: usize, parsed: bool) -> (s: SearchStep)
        ensures
            parsed ==> (s matches SearchStep::Found(i) && i == index),
            !parsed ==> (s matches SearchStep::Failed(Some((i, m))) && i == index && m == PARSE_ERROR),
    {
        if parsed {
            SearchStep::Found(index)
        } else {
            SearchStep::Failed(Some((index, PARSE_ERROR)))
        }
    }
}

/// The configuration to use after the search: the one found, with its place;
/// the default one, at the place that failed; or, when no file was found, the
/// default one at the first candidate, which is then to be written there.
/// The result is `(configuration, index of its place, write it)`.
pub fn settle_config(found: Option<(usize, Config)>, failure: Option<usize>) -> (r: (Config, usize, bool))
    ensures
        match found {
            Some((i, c)) => r.1 == i && !r.2 && r.0 == c,
            None => is_default_config(r.0) && match failure {
                Some(i) => r.1 == i && !r.2,
                None => r.1 == 0 && r.2,
            },
        },
{
    match found {
        Some((i, c)) => (c, i, false),
        None => match failure {
            Some(i) => (Config::default(), i, false),
            None => (Config::default(), 0, true),
        },
    }
}

/// The index of the place whose path becomes the configuration's path: where
/// the configuration was found, else where reading it failed, else the first
/// place (where the default configuration is written).
pub open spec fn config_place(found: Option<(usize, Config)>, failure: Option<usize>) -> usize {
    match found {
        Some((i, _)) => i,
        None => match failure {
            Some(i) => i,
            None => 0,
        },
    }
}

/// Settles the configuration after the search: as `settle_config`, and the
/// path of the place it belongs to is settled as the configuration's path.
/// The result is `(configuration, write it to that path)`.
pub fn settle_loaded(
    found: Option<(usize, Config)>,
    failure: Option<usize>,
    paths: &[Vec<u8>; 2],
    settled: &mut SettledPath,
) -> (r: (Config, bool))
    requires
        config_place(found, failure) < 2,
    ensures
        match found {
            Some((_, c)) => !r.1 && r.0 == c,
            None => is_default_config(r.0) && r.1 == (failure is None),
        },
        final(settled).settled() == settle_spec(old(settled).settled(), paths[config_place(found, failure) as int]@),
{
    let (config, index, write) = settle_config(found, failure);
    let path = vstd::slice::slice_to_vec(paths[index].as_slice());
    settled.settle(path);
    (config, write)
}

/// The path a run of settles leaves: `first`, then each of `later` in turn.
pub open spec fn settle_all(before: Option<Seq<u8>>, first: Seq<u8>, later: Seq<Seq<u8>>) -> Option<Seq<u8>>
    decreases later.len(),
{
    if later.len() == 0 {
        settle_spec(before, first)
    } else {
        settle_spec(settle_all(before, first, later.drop_last()), later.last())
    }
}

/// Once the configuration is loaded into an unsettled path, the path of the
/// configuration is, for good, the path of the place the search decided: where
/// it was found, else where reading it failed, else the first place; no later
/// settle changes it.
pub proof fn law_config_path_is_fixed_by_the_search(
    found: Option<(usize, Config)>,
    failure: Option<usize>,
    paths: Seq<Seq<u8>>,
    later: Seq<Seq<u8>>,
)
    requires
        config_place(found, failure) < paths.len(),
    ensures
        settle_all(None, paths[config_place(found, failure) as int], later) == Some(
            paths[config_place(found, failure) as int],
        ),
    decreases later.len(),
{
    if later.len() > 0 {
        law_config_path_is_fixed_by_the_search(found, failure, paths, later.drop_last());
    }
}

} // verus!
