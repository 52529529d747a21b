//! Browser tabs: recognising what song a tab plays from its title and URL.
use vstd::prelude::*;

use crate::scripts::reply_text;
use crate::text::{
    before_first, begins_with, chars_of, concat, contains, ends_with, find, find_first,
    find_at_or_after, find_last, finishes_with, first_piece, has, lemma_find_from_bounds, lemma_rfind, lowercase,
    lowered, prefix_bytes_below, replace, replaced, rfind, same, slice, split, split_from, starts_with, str_is, string_of,
    law_find_gives_first_occurrence, law_trim_idempotent, match_at, trim, trim_end_matches, trimmed,
    trimmed_end_matches, utf8_len,
};

verus! {

/// A song as `(title, artist, provider)`.
pub type SongView = (Seq<char>, Seq<char>, Seq<char>);

/// A song as found in a tab, with its characters.
pub type SongChars = (Vec<char>, Vec<char>, Vec<char>);

/// A browser tab that may be playing music.
#[derive(Debug, Clone, PartialEq, Eq)]
pub struct BrowserTab {
    pub title: String,
    pub url: String,
    pub browser_name: String,
}

/// The characters of a song triple.
pub open spec fn song_chars_view(o: Option<SongChars>) -> Option<SongView> {
    match o {
        Some((a, b, c)) => Some((a@, b@, c@)),
        None => None,
    }
}

/// The characters of a song triple of strings.
pub open spec fn song_view(o: Option<(String, String, String)>) -> Option<SongView> {
    match o {
        Some((a, b, c)) => Some((a@, b@, c@)),
        None => None,
    }
}

/// Name of the provider for the generic extraction: the suffix in lowercase with
/// spaces turned into dashes, or `browser-` and the browser's name in lowercase.
pub open spec fn provider_name(suffix: Seq<char>, browser: Seq<char>) -> Seq<char> {
    if suffix.len() > 0 {
        replace(lowercase(suffix), seq![' '], "-"@)
    } else {
        "browser-"@ + lowercase(browser)
    }
}

/// The title with the suffix, and any dash or bar before it, removed.
pub open spec fn generic_clean_title(title: Seq<char>, suffix: Seq<char>) -> Seq<char> {
    if suffix.len() > 0 && ends_with(title, suffix) {
        let idx = match rfind(title, suffix) {
            Some(i) => i,
            None => title.len() as int,
        };
        trim(trim_end_matches(trim_end_matches(trim(title.take(idx)), " -"@), " |"@))
    } else {
        title
    }
}

/// `title - artist` split at the last dash, when both parts are non-empty.
pub open spec fn dash_split(clean: Seq<char>, provider: Seq<char>) -> Option<SongView> {
    match rfind(clean, " - "@) {
        Some(sep) => {
            let t = trim(clean.take(sep));
            let a = trim(clean.skip(sep + " - "@.len()));
            if t.len() > 0 && a.len() > 0 {
                Some((t, a, provider))
            } else {
                None
            }
        },
        None => None,
    }
}

/// Generic extraction of `Title - Artist`, falling back to the whole title.
pub open spec fn generic_info(title: Seq<char>, suffix: Seq<char>, browser: Seq<char>) -> Option<
    SongView,
> {
    let clean = generic_clean_title(title, suffix);
    let provider = provider_name(suffix, browser);
    if dash_split(clean, provider) is Some {
        dash_split(clean, provider)
    } else if clean.len() > 0 {
        Some((clean, provider, provider))
    } else {
        None
    }
}

/// Both sides of the last ` - ` of `content`, trimmed.
pub open spec fn split_last_dash(content: Seq<char>, provider: Seq<char>) -> Option<SongView> {
    match rfind(content, " - "@) {
        Some(sep) => Some(
            (trim(content.take(sep)), trim(content.skip(sep + " - "@.len())), provider),
        ),
        None => None,
    }
}

/// YouTube Music: `Song - Artist - YouTube Music`.
pub open spec fn youtube_music_info(title: Seq<char>, browser: Seq<char>) -> Option<SongView> {
    let by_suffix = match rfind(title, " - YouTube Music"@) {
        Some(idx) => split_last_dash(title.take(idx), "youtube-music"@),
        None => None,
    };
    if by_suffix is Some {
        by_suffix
    } else {
        generic_info(title, "YouTube Music"@, browser)
    }
}

/// A YouTube tab title without the ` - YouTube` suffix and a short `(n)` prefix.
pub open spec fn youtube_clean_title(title: Seq<char>) -> Seq<char> {
    let c1 = if contains(title, " - YouTube"@) {
        trim(replace(title, " - YouTube"@, seq![]))
    } else {
        title
    };
    if starts_with(c1, seq!['(']) {
        match find(c1, seq![')']) {
            Some(ci) => if utf8_len(c1.take(ci)) < 10 {
                trim(c1.skip(ci + 1))
            } else {
                c1
            },
            None => c1,
        }
    } else {
        c1
    }
}

/// YouTube: `Title - Artist`, or the whole title by `YouTube`.
pub open spec fn youtube_info(title: Seq<char>) -> SongView {
    let clean = youtube_clean_title(title);
    match split_last_dash(clean, "youtube"@) {
        Some(v) => v,
        None => (clean, "YouTube"@, "youtube"@),
    }
}

/// A SoundCloud tab title without its ` | SoundCloud` or ` | Stream` suffix.
pub open spec fn soundcloud_clean_title(title: Seq<char>) -> Seq<char> {
    if contains(title, " | SoundCloud"@) {
        trim(replace(title, " | SoundCloud"@, seq![]))
    } else if contains(title, " | Stream"@) {
        trim(before_first(title, " | Stream"@))
    } else {
        title
    }
}

/// SoundCloud: `Artist - Title`, or the whole title by `SoundCloud`.
pub open spec fn soundcloud_info(title: Seq<char>) -> SongView {
    let clean = soundcloud_clean_title(title);
    match find(clean, " - "@) {
        Some(sep) => (
            trim(clean.skip(sep + " - "@.len())),
            trim(clean.take(sep)),
            "soundcloud"@,
        ),
        None => (clean, "SoundCloud"@, "soundcloud"@),
    }
}

/// Bandcamp: `Song, by Artist`.
pub open spec fn bandcamp_info(title: Seq<char>) -> Option<SongView> {
    match find(title, ", by "@) {
        Some(i) => Some((trim(title.take(i)), trim(title.skip(i + ", by "@.len())), "bandcamp"@)),
        None => None,
    }
}

/// Spotify Web Player: `Spotify Web Player: Song - Artist`, or a bare track page.
pub open spec fn spotify_info(title: Seq<char>, url: Seq<char>) -> Option<SongView> {
    let prefix = "Spotify Web Player: "@;
    let by_title = if starts_with(title, prefix) {
        split_last_dash(title.skip(prefix.len() as int), "spotify-web"@)
    } else {
        None
    };
    if by_title is Some {
        by_title
    } else if title == "Spotify Web Player"@ && contains(url, "/track/"@) {
        Some(("Spotify Track"@, "Spotify"@, "spotify-web"@))
    } else {
        None
    }
}

/// The song that a tab with this title and URL plays, as `(title, artist, provider)`.
pub open spec fn music_info(title: Seq<char>, url: Seq<char>, browser: Seq<char>) -> Option<
    SongView,
> {
    if contains(url, "music.youtube.com"@) {
        youtube_music_info(title, browser)
    } else if contains(url, "youtube.com/watch"@) {
        Some(youtube_info(title))
    } else if contains(url, "soundcloud.com"@) {
        Some(soundcloud_info(title))
    } else {
        let bandcamp = if contains(url, "bandcamp.com"@) {
            bandcamp_info(title)
        } else {
            None
        };
        let spotify = if contains(url, "open.spotify.com"@) {
            spotify_info(title, url)
        } else {
            None
        };
        if bandcamp is Some {
            bandcamp
        } else if spotify is Some {
            spotify
        } else if contains(url, "music"@) || contains(url, "audio"@) || contains(url, "player"@) {
            generic_info(title, seq![], browser)
        } else {
            None
        }
    }
}

// ---------------------------------------------------------------------------
// Executable counterparts
// ---------------------------------------------------------------------------

fn provider_chars(suffix: &[char], browser: &[char]) -> (v: Vec<char>)
    ensures
        v@ == provider_name(suffix@, browser@),
{
    if suffix.len() > 0 {
        let lo = lowered(suffix);
        let space = vec![' '];
        assert(space@ =~= seq![' ']);
        let dash = chars_of("-");
        replaced(&lo, &space, &dash)
    } else {
        let head = chars_of("browser-");
        let lo = lowered(browser);
        concat(&head, &lo)
    }
}

fn generic_clean(title: &[char], suffix: &[char]) -> (v: Vec<char>)
    ensures
        v@ == generic_clean_title(title@, suffix@),
{
    if suffix.len() > 0 && finishes_with(title, suffix) {
        let idx = match find_last(title, suffix) {
            Some(i) => i,
            None => title.len(),
        };
        proof {
            lemma_rfind(title@, suffix@);
        }
        let head = slice(title, 0, idx);
        let t1 = trimmed(&head);
        let dash = chars_of(" -");
        let bar = chars_of(" |");
        proof {
            reveal_strlit(" -");
            reveal_strlit(" |");
        }
        let t2 = trimmed_end_matches(&t1, &dash);
        let t3 = trimmed_end_matches(&t2, &bar);
        trimmed(&t3)
    } else {
        slice(title, 0, title.len())
    }
}

fn split_last_dash_exec(content: &[char], provider: &[char]) -> (r: Option<SongChars>)
    ensures
        song_chars_view(r) == split_last_dash(content@, provider@),
{
    let sep_pat = chars_of(" - ");
    proof {
        lemma_rfind(content@, sep_pat@);
    }
    match find_last(content, &sep_pat) {
        Some(sep) => {
            let n = content.len();
            let left = slice(content, 0, sep);
            let right = slice(content, sep + sep_pat.len(), n);
            let t = trimmed(&left);
            let a = trimmed(&right);
            let p = slice(provider, 0, provider.len());
            Some((t, a, p))
        },
        None => None,
    }
}

fn dash_split_exec(clean: &[char], provider: &[char]) -> (r: Option<SongChars>)
    ensures
        song_chars_view(r) == dash_split(clean@, provider@),
{
    match split_last_dash_exec(clean, provider) {
        Some((t, a, p)) => {
            if t.len() > 0 && a.len() > 0 {
                Some((t, a, p))
            } else {
                None
            }
        },
        None => None,
    }
}

fn generic_exec(title: &[char], suffix: &[char], browser: &[char]) -> (r: Option<SongChars>)
    ensures
        song_chars_view(r) == generic_info(title@, suffix@, browser@),
{
    let clean = generic_clean(title, suffix);
    let provider = provider_chars(suffix, browser);
    match dash_split_exec(&clean, &provider) {
        Some(v) => Some(v),
        None => {
            if clean.len() > 0 {
                let p2 = slice(&provider, 0, provider.len());
                Some((clean, provider, p2))
            } else {
                None
            }
        },
    }
}

fn youtube_music_exec(title: &[char], browser: &[char]) -> (r: Option<SongChars>)
    ensures
        song_chars_view(r) == youtube_music_info(title@, browser@),
{
    let suffix = chars_of(" - YouTube Music");
    proof {
        lemma_rfind(title@, suffix@);
    }
    if let Some(idx) = find_last(title, &suffix) {
        let content = slice(title, 0, idx);
        let prov = chars_of("youtube-music");
        if let Some(v) = split_last_dash_exec(&content, &prov) {
            return Some(v);
        }
    }
    let name = chars_of("YouTube Music");
    generic_exec(title, &name, browser)
}

fn youtube_clean(title: &[char]) -> (v: Vec<char>)
    ensures
        v@ == youtube_clean_title(title@),
{
    let suffix = chars_of(" - YouTube");
    proof {
        reveal_strlit(" - YouTube");
    }
    let c1 = if has(title, &suffix) {
        let empty: Vec<char> = Vec::new();
        assert(empty@ =~= seq![]);
        let r = replaced(title, &suffix, &empty);
        trimmed(&r)
    } else {
        let n = title.len();
        let whole = slice(title, 0, n);
        assert(whole@ =~= title@);
        whole
    };
    assert(c1@ == if contains(title@, " - YouTube"@) {
        trim(replace(title@, " - YouTube"@, seq![]))
    } else {
        title@
    });
    let open = vec!['('];
    let close = vec![')'];
    assert(open@ =~= seq!['(']);
    assert(close@ =~= seq![')']);
    if begins_with(&c1, &open) {
        proof {
            lemma_find_from_bounds(c1@, close@, 0);
        }
        match find_first(&c1, &close) {
            Some(ci) => {
                if prefix_bytes_below(&c1, ci, 10) {
                    let rest = slice(&c1, ci + 1, c1.len());
                    trimmed(&rest)
                } else {
                    c1
                }
            },
            None => c1,
        }
    } else {
        c1
    }
}

fn youtube_exec(title: &[char]) -> (r: SongChars)
    ensures
        song_chars_view(Some(r)) == Some(youtube_info(title@)),
{
    let clean = youtube_clean(title);
    let prov = chars_of("youtube");
    match split_last_dash_exec(&clean, &prov) {
        Some(v) => v,
        None => (clean, chars_of("YouTube"), prov),
    }
}

fn soundcloud_clean(title: &[char]) -> (v: Vec<char>)
    ensures
        v@ == soundcloud_clean_title(title@),
{
    let suffix = chars_of(" | SoundCloud");
    let stream = chars_of(" | Stream");
    proof {
        reveal_strlit(" | SoundCloud");
    }
    if has(title, &suffix) {
        let empty: Vec<char> = Vec::new();
        assert(empty@ =~= seq![]);
        let r = replaced(title, &suffix, &empty);
        trimmed(&r)
    } else if has(title, &stream) {
        let f = first_piece(title, &stream);
        trimmed(&f)
    } else {
        slice(title, 0, title.len())
    }
}

fn soundcloud_exec(title: &[char]) -> (r: SongChars)
    ensures
        song_chars_view(Some(r)) == Some(soundcloud_info(title@)),
{
    let clean = soundcloud_clean(title);
    let sep_pat = chars_of(" - ");
    proof {
        lemma_find_from_bounds(clean@, sep_pat@, 0);
    }
    match find_first(&clean, &sep_pat) {
        Some(sep) => {
            let left = slice(&clean, 0, sep);
            let right = slice(&clean, sep + sep_pat.len(), clean.len());
            (trimmed(&right), trimmed(&left), chars_of("soundcloud"))
        },
        None => (clean, chars_of("SoundCloud"), chars_of("soundcloud")),
    }
}

fn bandcamp_exec(title: &[char]) -> (r: Option<SongChars>)
    ensures
        song_chars_view(r) == bandcamp_info(title@),
{
    let by_pat = chars_of(", by ");
    proof {
        lemma_find_from_bounds(title@, by_pat@, 0);
    }
    match find_first(title, &by_pat) {
        Some(i) => {
            let n = title.len();
            let left = slice(title, 0, i);
            let right = slice(title, i + by_pat.len(), n);
            Some((trimmed(&left), trimmed(&right), chars_of("bandcamp")))
        },
        None => None,
    }
}

fn spotify_exec(title: &[char], url: &[char]) -> (r: Option<SongChars>)
    ensures
        song_chars_view(r) == spotify_info(title@, url@),
{
    let prefix = chars_of("Spotify Web Player: ");
    if begins_with(title, &prefix) {
        let content = slice(title, prefix.len(), title.len());
        assert(content@ == title@.skip(prefix@.len() as int));
        let prov = chars_of("spotify-web");
        if let Some(v) = split_last_dash_exec(&content, &prov) {
            return Some(v);
        }
    }
    let bare = chars_of("Spotify Web Player");
    let track = chars_of("/track/");
    if same(title, &bare) && has(url, &track) {
        Some((chars_of("Spotify Track"), chars_of("Spotify"), chars_of("spotify-web")))
    } else {
        None
    }
}

/// What `BrowserTab::get_music_info` computes, on characters.
pub fn music_info_chars(title: &[char], url: &[char], browser: &[char]) -> (r: Option<SongChars>)
    ensures
        song_chars_view(r) == music_info(title@, url@, browser@),
{
    if has(url, &chars_of("music.youtube.com")) {
        youtube_music_exec(title, browser)
    } else if has(url, &chars_of("youtube.com/watch")) {
        Some(youtube_exec(title))
    } else if has(url, &chars_of("soundcloud.com")) {
        Some(soundcloud_exec(title))
    } else {
        if has(url, &chars_of("bandcamp.com")) {
            if let Some(v) = bandcamp_exec(title) {
                return Some(v);
            }
        }
        if has(url, &chars_of("open.spotify.com")) {
            if let Some(v) = spotify_exec(title, url) {
                return Some(v);
            }
        }
        if has(url, &chars_of("music")) || has(url, &chars_of("audio")) || has(
            url,
            &chars_of("player"),
        ) {
            let empty: Vec<char> = Vec::new();
            generic_exec(title, &empty, browser)
        } else {
            None
        }
    }
}

fn to_strings(r: Option<SongChars>) -> (s: Option<(String, String, String)>)
    ensures
        song_view(s) == song_chars_view(r),
{
    match r {
        Some((a, b, c)) => Some((string_of(&a), string_of(&b), string_of(&c))),
        None => None,
    }
}

impl BrowserTab {
    /// The song this tab plays, as `(title, artist, provider)`, recognised from
    /// the tab's title for YouTube Music, YouTube, SoundCloud, Bandcamp and the
    /// Spotify Web Player, and generically for other music, audio and player pages.
    pub fn get_music_info(&self) -> (r: Option<(String, String, String)>)
        ensures
            song_view(r) == music_info(self.title@, self.url@, self.browser_name@),
    {
        let title = chars_of(self.title.as_str());
        let url = chars_of(self.url.as_str());
        let browser = chars_of(self.browser_name.as_str());
        to_strings(music_info_chars(&title, &url, &browser))
    }

    /// `Title - Artist` from `title` with `suffix_to_remove` (and a dash or bar
    /// before it) removed; the whole cleaned title when it has no such split.
    pub fn extract_generic_title_dash_artist(&self, title: String, suffix_to_remove: &str) -> (r:
        Option<(String, String, String)>)
        ensures
            song_view(r) == generic_info(title@, suffix_to_remove@, self.browser_name@),
    {
        let t = chars_of(title.as_str());
        let s = chars_of(suffix_to_remove);
        let b = chars_of(self.browser_name.as_str());
        to_strings(generic_exec(&t, &s, &b))
    }
}

} // verus!

verus! {

impl View for BrowserTab {
    type V = SongView;

    open spec fn view(&self) -> SongView {
        (self.title@, self.url@, self.browser_name@)
    }
}

impl BrowserTab {
    /// A copy of this tab.
    pub fn duplicate(&self) -> (r: BrowserTab)
        ensures
            r@ == self@,
    {
        BrowserTab {
            title: self.title.clone(),
            url: self.url.clone(),
            browser_name: self.browser_name.clone(),
        }
    }
}

/// The views of a list of tabs.
pub open spec fn tabs_view(tabs: Seq<BrowserTab>) -> Seq<SongView> {
    tabs.map_values(|t: BrowserTab| t@)
}

/// The tab described by one `title|url` line of the tab listing of `browser`:
/// both fields trimmed and non-empty.
pub open spec fn tab_of_line(line: Seq<char>, browser: Seq<char>) -> Option<SongView> {
    match find(line, seq!['|']) {
        None => None,
        Some(i) => {
            let title = trim(line.take(i));
            let url = trim(before_first(line.skip(i + 1), seq!['|']));
            if title.len() > 0 && url.len() > 0 {
                Some((title, url, browser))
            } else {
                None
            }
        },
    }
}

/// The tabs described by the given lines, in order.
pub open spec fn tabs_of_lines(lines: Seq<Seq<char>>, browser: Seq<char>) -> Seq<SongView>
    decreases lines.len(),
{
    if lines.len() == 0 {
        seq![]
    } else {
        let rest = tabs_of_lines(lines.drop_first(), browser);
        match tab_of_line(lines[0], browser) {
            Some(t) => seq![t] + rest,
            None => rest,
        }
    }
}

/// The tabs listed in the output of the tab-listing script for `browser`.
/// (Splitting at `\n` gives the same tabs as `str::lines`: a `\r` before the
/// line break ends up at the end of a field, and fields are trimmed.)
pub open spec fn media_tabs(output: Seq<char>, browser: Seq<char>) -> Seq<SongView> {
    tabs_of_lines(split(trim(output), '\n'), browser)
}

fn tab_of_line_exec(line: &[char], browser: &[char]) -> (r: Option<BrowserTab>)
    ensures
        match r {
            Some(t) => tab_of_line(line@, browser@) == Some(t@),
            None => tab_of_line(line@, browser@) is None,
        },
{
    let bar = vec!['|'];
    assert(bar@ =~= seq!['|']);
    proof {
        lemma_find_from_bounds(line@, bar@, 0);
    }
    match find_first(line, &bar) {
        None => None,
        Some(i) => {
            let n = line.len();
            let head = slice(line, 0, i);
            let tail = slice(line, i + 1, n);
            assert(tail@ == line@.skip(i + 1));
            let field = first_piece(&tail, &bar);
            let title = trimmed(&head);
            let url = trimmed(&field);
            if title.len() > 0 && url.len() > 0 {
                Some(
                    BrowserTab {
                        title: string_of(&title),
                        url: string_of(&url),
                        browser_name: string_of(browser),
                    },
                )
            } else {
                None
            }
        },
    }
}

/// The tabs listed in the output of the tab-listing script for `browser`
/// (what `get_all_media_tabs` reads from the script's output).
pub fn parse_media_tabs(output: &str, browser: &str) -> (tabs: Vec<BrowserTab>)
    ensures
        tabs_view(tabs@) == media_tabs(output@, browser@),
{
    let raw = chars_of(output);
    let s = trimmed(&raw);
    let b = chars_of(browser);
    let nl = vec!['\n'];
    assert(nl@ =~= seq!['\n']);
    let mut out: Vec<BrowserTab> = Vec::new();
    let mut pos: usize = 0;
    loop
        invariant
            pos <= s.len(),
            nl@ == seq!['\n'],
            s@ == trim(output@),
            b@ == browser@,
            tabs_view(out@) + tabs_of_lines(split_from(s@, '\n', pos as int), b@) == tabs_of_lines(
                split(s@, '\n'),
                b@,
            ),
        decreases s.len() - pos,
    {
        proof {
            lemma_find_from_bounds(s@, nl@, pos as int);
        }
        let found = find_at_or_after(&s, &nl, pos);
        let end = match found {
            Some(j) => j,
            None => s.len(),
        };
        let line = slice(&s, pos, end);
        let ghost rest = match found {
            Some(j) => split_from(s@, '\n', j + 1),
            None => Seq::<Seq<char>>::empty(),
        };
        proof {
            assert(s@.skip(pos as int) == s@.subrange(pos as int, s@.len() as int));
            assert(split_from(s@, '\n', pos as int) =~= seq![line@] + rest);
            assert((seq![line@] + rest).drop_first() =~= rest);
            assert((seq![line@] + rest)[0] == line@);
            let head = match tab_of_line(line@, b@) {
                Some(t) => seq![t],
                None => Seq::<SongView>::empty(),
            };
            assert(tabs_of_lines(seq![line@] + rest, b@) =~= head + tabs_of_lines(rest, b@));
        }
        let ghost before = tabs_view(out@);
        match tab_of_line_exec(&line, &b) {
            Some(t) => {
                out.push(t);
                assert(tabs_view(out@) =~= before + seq![t@]);
            },
            None => {
                assert(tabs_view(out@) =~= before);
            },
        }
        match found {
            Some(j) => {
                pos = j + 1;
            },
            None => {
                assert(tabs_of_lines(rest, b@) =~= seq![]);
                assert(tabs_view(out@) =~= tabs_view(out@) + tabs_of_lines(rest, b@));
                assert(tabs_view(out@) == tabs_of_lines(split(s@, '\n'), b@));
                return out;
            },
        }
    }
}

} // verus!

verus! {

/// What the audio probe of a tab reported.
#[derive(Debug, Clone, Copy, PartialEq, Eq, Structural)]
pub enum AudioState {
    /// Playing with sound.
    Unmuted,
    /// Playing, muted.
    Muted,
    /// Something on the page looks like it is playing.
    Likely,
    /// The page title looks like a media page.
    Media,
    /// The tab is the active tab of its window.
    Active,
    /// Nothing detected.
    Silent,
}

/// The audio state named by a reply of the audio probe script.
pub open spec fn audio_state_of(reply: Seq<char>) -> AudioState {
    if reply == "true-unmuted"@ {
        AudioState::Unmuted
    } else if reply == "true-muted"@ {
        AudioState::Muted
    } else if reply == "true-likely"@ {
        AudioState::Likely
    } else if reply == "true-media"@ {
        AudioState::Media
    } else if reply == "true-active"@ {
        AudioState::Active
    } else {
        AudioState::Silent
    }
}

impl AudioState {
    /// Reads the (already trimmed) reply of the audio probe script.
    pub fn from_reply(reply: &str) -> (r: AudioState)
        ensures
            r == audio_state_of(reply@),
    {
        if str_is(reply, &chars_of("true-unmuted")) {
            AudioState::Unmuted
        } else if str_is(reply, &chars_of("true-muted")) {
            AudioState::Muted
        } else if str_is(reply, &chars_of("true-likely")) {
            AudioState::Likely
        } else if str_is(reply, &chars_of("true-media")) {
            AudioState::Media
        } else if str_is(reply, &chars_of("true-active")) {
            AudioState::Active
        } else {
            AudioState::Silent
        }
    }
}

/// The music service that a tab's URL belongs to.
#[derive(Debug, Clone, Copy, PartialEq, Eq, Structural)]
pub enum Service {
    SoundCloud,
    YouTube,
    YouTubeMusic,
    Spotify,
    Other,
}

/// The service of a URL, checked in this order: SoundCloud, YouTube videos,
/// YouTube Music, Spotify.
pub open spec fn service_of(url: Seq<char>) -> Service {
    if contains(url, "soundcloud.com"@) {
        Service::SoundCloud
    } else if contains(url, "youtube.com/watch"@) {
        Service::YouTube
    } else if contains(url, "music.youtube.com"@) {
        Service::YouTubeMusic
    } else if contains(url, "open.spotify.com"@) {
        Service::Spotify
    } else {
        Service::Other
    }
}

/// The service of a URL.
pub fn classify_service(url: &[char]) -> (r: Service)
    ensures
        r == service_of(url@),
{
    if has(url, &chars_of("soundcloud.com")) {
        Service::SoundCloud
    } else if has(url, &chars_of("youtube.com/watch")) {
        Service::YouTube
    } else if has(url, &chars_of("music.youtube.com")) {
        Service::YouTubeMusic
    } else if has(url, &chars_of("open.spotify.com")) {
        Service::Spotify
    } else {
        Service::Other
    }
}

/// The first index at or after `i` whose flag is set.
pub open spec fn first_true_from(s: Seq<bool>, i: int) -> Option<int>
    decreases s.len() - i,
{
    if i < 0 || i >= s.len() {
        None
    } else if s[i] {
        Some(i)
    } else {
        first_true_from(s, i + 1)
    }
}

/// The first index whose flag is set.
pub open spec fn first_true(s: Seq<bool>) -> Option<int> {
    first_true_from(s, 0)
}

/// The last index below `k` whose flag is set.
pub open spec fn last_true_below(s: Seq<bool>, k: int) -> Option<int>
    decreases k,
{
    if k <= 0 || k > s.len() {
        None
    } else if s[k - 1] {
        Some(k - 1)
    } else {
        last_true_below(s, k - 1)
    }
}

/// The last index whose flag is set.
pub open spec fn last_true(s: Seq<bool>) -> Option<int> {
    last_true_below(s, s.len() as int)
}

/// Flags of the tabs whose audio state is `a`.
pub open spec fn audio_flags(states: Seq<AudioState>, a: AudioState) -> Seq<bool> {
    Seq::new(states.len(), |i: int| states[i] == a)
}

/// Flags of the tabs whose URL contains `pat`.
pub open spec fn url_flags(tabs: Seq<SongView>, pat: Seq<char>) -> Seq<bool> {
    Seq::new(tabs.len(), |i: int| contains(tabs[i].1, pat))
}

/// Flags of the tabs whose URL belongs to service `sv`.
pub open spec fn service_flags(tabs: Seq<SongView>, sv: Service) -> Seq<bool> {
    Seq::new(tabs.len(), |i: int| service_of(tabs[i].1) == sv)
}

/// Flags set in both `a` and `b`.
pub open spec fn both_flags(a: Seq<bool>, b: Seq<bool>) -> Seq<bool> {
    Seq::new(a.len(), |i: int| a[i] && b[i])
}

/// Within a group of tabs: the first SoundCloud tab, else the first YouTube
/// video, else the first tab of the group.
pub open spec fn pick_in_group(group: Seq<bool>, sc: Seq<bool>, yt: Seq<bool>) -> Option<int> {
    if first_true(both_flags(group, sc)) is Some {
        first_true(both_flags(group, sc))
    } else if first_true(both_flags(group, yt)) is Some {
        first_true(both_flags(group, yt))
    } else {
        first_true(group)
    }
}

/// Which of the potential music tabs of a browser is taken as its active tab.
pub open spec fn pick_tab(tabs: Seq<SongView>, states: Seq<AudioState>) -> Option<int> {
    let sc = url_flags(tabs, "soundcloud.com"@);
    let yt = url_flags(tabs, "youtube.com/watch"@);
    let unmuted = audio_flags(states, AudioState::Unmuted);
    let muted = audio_flags(states, AudioState::Muted);
    if first_true(unmuted) is Some {
        pick_in_group(unmuted, sc, yt)
    } else if first_true(muted) is Some {
        pick_in_group(muted, sc, yt)
    } else if last_true(service_flags(tabs, Service::SoundCloud)) is Some {
        last_true(service_flags(tabs, Service::SoundCloud))
    } else if last_true(service_flags(tabs, Service::YouTube)) is Some {
        last_true(service_flags(tabs, Service::YouTube))
    } else if last_true(service_flags(tabs, Service::YouTubeMusic)) is Some {
        last_true(service_flags(tabs, Service::YouTubeMusic))
    } else if last_true(service_flags(tabs, Service::Spotify)) is Some {
        last_true(service_flags(tabs, Service::Spotify))
    } else if first_true(audio_flags(states, AudioState::Likely)) is Some {
        first_true(audio_flags(states, AudioState::Likely))
    } else if first_true(audio_flags(states, AudioState::Media)) is Some {
        first_true(audio_flags(states, AudioState::Media))
    } else if first_true(audio_flags(states, AudioState::Active)) is Some {
        first_true(audio_flags(states, AudioState::Active))
    } else if tabs.len() > 0 {
        Some(0)
    } else {
        None
    }
}

fn first_set(s: &Vec<bool>) -> (r: Option<usize>)
    ensures
        match r {
            Some(i) => first_true(s@) == Some(i as int),
            None => first_true(s@) is None,
        },
{
    let mut i: usize = 0;
    while i < s.len()
        invariant
            i <= s.len(),
            first_true(s@) == first_true_from(s@, i as int),
        decreases s.len() - i,
    {
        if s[i] {
            return Some(i);
        }
        i = i + 1;
    }
    None
}

fn last_set(s: &Vec<bool>) -> (r: Option<usize>)
    ensures
        match r {
            Some(i) => last_true(s@) == Some(i as int),
            None => last_true(s@) is None,
        },
{
    let mut k: usize = s.len();
    while k > 0
        invariant
            k <= s.len(),
            last_true(s@) == last_true_below(s@, k as int),
        decreases k,
    {
        if s[k - 1] {
            return Some(k - 1);
        }
        k = k - 1;
    }
    None
}

fn audio_flags_exec(states: &Vec<AudioState>, a: AudioState) -> (v: Vec<bool>)
    ensures
        v@ == audio_flags(states@, a),
{
    let mut v: Vec<bool> = Vec::new();
    let mut i: usize = 0;
    while i < states.len()
        invariant
            i <= states.len(),
            v@ =~= audio_flags(states@, a).take(i as int),
        decreases states.len() - i,
    {
        v.push(states[i] == a);
        i = i + 1;
    }
    v
}

fn url_flags_exec(tabs: &Vec<BrowserTab>, pat: &[char]) -> (v: Vec<bool>)
    ensures
        v@ == url_flags(tabs_view(tabs@), pat@),
{
    let mut v: Vec<bool> = Vec::new();
    let mut i: usize = 0;
    while i < tabs.len()
        invariant
            i <= tabs.len(),
            v@ =~= url_flags(tabs_view(tabs@), pat@).take(i as int),
        decreases tabs.len() - i,
    {
        let url = chars_of(tabs[i].url.as_str());
        v.push(has(&url, pat));
        i = i + 1;
    }
    v
}

fn service_flags_exec(tabs: &Vec<BrowserTab>, sv: Service) -> (v: Vec<bool>)
    ensures
        v@ == service_flags(tabs_view(tabs@), sv),
{
    let mut v: Vec<bool> = Vec::new();
    let mut i: usize = 0;
    while i < tabs.len()
        invariant
            i <= tabs.len(),
            v@ =~= service_flags(tabs_view(tabs@), sv).take(i as int),
        decreases tabs.len() - i,
    {
        let url = chars_of(tabs[i].url.as_str());
        v.push(classify_service(&url) == sv);
        i = i + 1;
    }
    v
}

fn both_flags_exec(a: &Vec<bool>, b: &Vec<bool>) -> (v: Vec<bool>)
    requires
        a.len() == b.len(),
    ensures
        v@ == both_flags(a@, b@),
{
    let mut v: Vec<bool> = Vec::new();
    let mut i: usize = 0;
    while i < a.len()
        invariant
            i <= a.len() == b.len(),
            v@ =~= both_flags(a@, b@).take(i as int),
        decreases a.len() - i,
    {
        v.push(a[i] && b[i]);
        i = i + 1;
    }
    v
}

fn pick_in_group_exec(group: &Vec<bool>, sc: &Vec<bool>, yt: &Vec<bool>) -> (r: Option<usize>)
    requires
        group.len() == sc.len() == yt.len(),
    ensures
        match r {
            Some(i) => pick_in_group(group@, sc@, yt@) == Some(i as int),
            None => pick_in_group(group@, sc@, yt@) is None,
        },
{
    if let Some(i) = first_set(&both_flags_exec(group, sc)) {
        return Some(i);
    }
    if let Some(i) = first_set(&both_flags_exec(group, yt)) {
        return Some(i);
    }
    first_set(group)
}

/// Which of the potential music tabs of a browser is the active one, given
/// what the audio probe said of each: the index into `tabs`.
pub fn pick_active_tab_index(tabs: &Vec<BrowserTab>, states: &Vec<AudioState>) -> (r: Option<
    usize,
>)
    requires
        tabs.len() == states.len(),
    ensures
        match r {
            Some(i) => pick_tab(tabs_view(tabs@), states@) == Some(i as int),
            None => pick_tab(tabs_view(tabs@), states@) is None,
        },
{
    let sc = url_flags_exec(tabs, &chars_of("soundcloud.com"));
    let yt = url_flags_exec(tabs, &chars_of("youtube.com/watch"));
    let unmuted = audio_flags_exec(states, AudioState::Unmuted);
    let muted = audio_flags_exec(states, AudioState::Muted);
    if first_set(&unmuted).is_some() {
        return pick_in_group_exec(&unmuted, &sc, &yt);
    }
    if first_set(&muted).is_some() {
        return pick_in_group_exec(&muted, &sc, &yt);
    }
    if let Some(i) = last_set(&service_flags_exec(tabs, Service::SoundCloud)) {
        return Some(i);
    }
    if let Some(i) = last_set(&service_flags_exec(tabs, Service::YouTube)) {
        return Some(i);
    }
    if let Some(i) = last_set(&service_flags_exec(tabs, Service::YouTubeMusic)) {
        return Some(i);
    }
    if let Some(i) = last_set(&service_flags_exec(tabs, Service::Spotify)) {
        return Some(i);
    }
    if let Some(i) = first_set(&audio_flags_exec(states, AudioState::Likely)) {
        return Some(i);
    }
    if let Some(i) = first_set(&audio_flags_exec(states, AudioState::Media)) {
        return Some(i);
    }
    if let Some(i) = first_set(&audio_flags_exec(states, AudioState::Active)) {
        return Some(i);
    }
    if tabs.len() > 0 {
        Some(0)
    } else {
        None
    }
}

/// The active tab among the potential music tabs of a browser, given what the
/// audio probe said of each (the choice that `get_browser_active_tab` makes).
pub fn pick_active_tab(tabs: &Vec<BrowserTab>, states: &Vec<AudioState>) -> (r: Option<
    BrowserTab,
>)
    requires
        tabs.len() == states.len(),
    ensures
        match pick_tab(tabs_view(tabs@), states@) {
            Some(i) => r is Some && 0 <= i < tabs.len() && r->0@ == tabs@[i]@,
            None => r is None,
        },
{
    match pick_active_tab_index(tabs, states) {
        Some(i) => {
            proof {
                lemma_pick_tab_in_range(tabs_view(tabs@), states@);
            }
            Some(tabs[i].duplicate())
        },
        None => None,
    }
}

proof fn lemma_first_true_from(s: Seq<bool>, i: int)
    ensures
        first_true_from(s, i) matches Some(j) ==> i <= j < s.len() && 0 <= j && s[j],
    decreases s.len() - i,
{
    if i < 0 || i >= s.len() {
    } else if s[i] {
    } else {
        lemma_first_true_from(s, i + 1);
    }
}

proof fn lemma_last_true_below(s: Seq<bool>, k: int)
    ensures
        last_true_below(s, k) matches Some(j) ==> 0 <= j < k && j < s.len() && s[j],
    decreases k,
{
    if k <= 0 || k > s.len() {
    } else if s[k - 1] {
    } else {
        lemma_last_true_below(s, k - 1);
    }
}

/// The picked tab is one of the tabs.
pub proof fn lemma_pick_tab_in_range(tabs: Seq<SongView>, states: Seq<AudioState>)
    requires
        tabs.len() == states.len(),
    ensures
        pick_tab(tabs, states) matches Some(i) ==> 0 <= i < tabs.len(),
        pick_tab(tabs, states) is None <==> tabs.len() == 0,
{
    let sc = url_flags(tabs, "soundcloud.com"@);
    let yt = url_flags(tabs, "youtube.com/watch"@);
    let unmuted = audio_flags(states, AudioState::Unmuted);
    let muted = audio_flags(states, AudioState::Muted);
    lemma_first_true_from(unmuted, 0);
    lemma_first_true_from(muted, 0);
    lemma_first_true_from(both_flags(unmuted, sc), 0);
    lemma_first_true_from(both_flags(unmuted, yt), 0);
    lemma_first_true_from(both_flags(muted, sc), 0);
    lemma_first_true_from(both_flags(muted, yt), 0);
    lemma_last_true_below(service_flags(tabs, Service::SoundCloud), tabs.len() as int);
    lemma_last_true_below(service_flags(tabs, Service::YouTube), tabs.len() as int);
    lemma_last_true_below(service_flags(tabs, Service::YouTubeMusic), tabs.len() as int);
    lemma_last_true_below(service_flags(tabs, Service::Spotify), tabs.len() as int);
    lemma_first_true_from(audio_flags(states, AudioState::Likely), 0);
    lemma_first_true_from(audio_flags(states, AudioState::Media), 0);
    lemma_first_true_from(audio_flags(states, AudioState::Active), 0);
}

} // verus!

verus! {

/// What the browser module reports as playing. The timeline always starts at
/// zero and lasts five minutes, since a page does not tell its length.
#[derive(Debug, Clone, PartialEq, Eq)]
pub struct BrowserPlay {
    pub title: String,
    pub artist: String,
    pub source: String,
    pub progress_ms: u64,
    pub duration_ms: u64,
}

/// Length given to every browser timeline: five minutes.
pub const BROWSER_TRACK_MS: u64 = 300000;

/// The source name shown for a provider.
pub open spec fn browser_source(provider: Seq<char>) -> Seq<char> {
    if provider == "soundcloud"@ {
        "browser-soundcloud"@
    } else if provider == "youtube"@ {
        "browser-youtube"@
    } else if provider == "youtube-music"@ {
        "browser-youtube-music"@
    } else if provider == "spotify-web"@ {
        "browser-spotify"@
    } else {
        "browser-"@ + lowercase(provider)
    }
}

/// `s`, or `Desconocido` when `s` is blank.
pub open spec fn or_unknown(s: Seq<char>) -> Seq<char> {
    if trim(s).len() == 0 {
        "Desconocido"@
    } else {
        s
    }
}

fn or_unknown_exec(s: String) -> (r: String)
    ensures
        r@ == or_unknown(s@),
{
    let c = chars_of(s.as_str());
    if trimmed(&c).len() == 0 {
        String::from_str("Desconocido")
    } else {
        s
    }
}

/// The play information sent for a song found in a browser tab.
pub fn create_play_info(title: String, artist: String, provider: String) -> (p: BrowserPlay)
    ensures
        p.title@ == or_unknown(title@),
        p.artist@ == or_unknown(artist@),
        p.source@ == browser_source(provider@),
        p.progress_ms == 0,
        p.duration_ms == BROWSER_TRACK_MS,
{
    let prov = chars_of(provider.as_str());
    let source = if same(&prov, &chars_of("soundcloud")) {
        String::from_str("browser-soundcloud")
    } else if same(&prov, &chars_of("youtube")) {
        String::from_str("browser-youtube")
    } else if same(&prov, &chars_of("youtube-music")) {
        String::from_str("browser-youtube-music")
    } else if same(&prov, &chars_of("spotify-web")) {
        String::from_str("browser-spotify")
    } else {
        string_of(&concat(&chars_of("browser-"), &lowered(&prov)))
    };
    BrowserPlay {
        title: or_unknown_exec(title),
        artist: or_unknown_exec(artist),
        source,
        progress_ms: 0,
        duration_ms: BROWSER_TRACK_MS,
    }
}

/// The play information for a song `(title, artist, provider)`.
pub open spec fn play_of(song: SongView) -> (Seq<char>, Seq<char>, Seq<char>) {
    (or_unknown(song.0), or_unknown(song.1), browser_source(song.2))
}

/// What the browser module tells the manager.
#[derive(Debug, Clone, PartialEq, Eq)]
pub enum BrowserReport {
    Paused,
    Playing(BrowserPlay),
}

/// The report as `None` for a pause and the play triple for a song.
pub open spec fn report_view(r: BrowserReport) -> Option<(Seq<char>, Seq<char>, Seq<char>)> {
    match r {
        BrowserReport::Paused => None,
        BrowserReport::Playing(p) => Some((p.title@, p.artist@, p.source@)),
    }
}

/// A well-formed report: playing reports carry the browser timeline.
pub open spec fn report_wf(r: BrowserReport) -> bool {
    match r {
        BrowserReport::Paused => true,
        BrowserReport::Playing(p) => p.progress_ms == 0 && p.duration_ms == BROWSER_TRACK_MS,
    }
}

/// What the poll of the browsers asks for next.
#[derive(Debug)]
pub enum MonitorStep {
    /// Ask the browser with this index (in the configured list) for its active music tab.
    AskBrowser(usize),
    /// Check that this remembered tab is still open in its browser.
    CheckTabOpen(BrowserTab),
    /// The poll is over: send this report, if any.
    Finish(Option<BrowserReport>),
}

/// The decisions of the browser module between polls: whether it last reported
/// a pause, and which tab it last reported as playing.
pub struct BrowserMacOsWorker {
    pub browsers: Vec<String>,
    pub paused: bool,
    pub current_tab: Option<BrowserTab>,
}

/// The view of an optional tab.
pub open spec fn opt_tab_view(t: Option<BrowserTab>) -> Option<SongView> {
    match t {
        Some(tab) => Some(tab@),
        None => None,
    }
}

/// The song of a tab.
pub open spec fn tab_song(t: SongView) -> Option<SongView> {
    music_info(t.0, t.1, t.2)
}

impl BrowserMacOsWorker {
    /// Whether the last report was a pause (or nothing was reported yet).
    pub open spec fn is_paused(&self) -> bool {
        self.paused
    }

    /// The tab last reported as playing.
    pub open spec fn current(&self) -> Option<SongView> {
        opt_tab_view(self.current_tab)
    }

    /// A worker for the given browsers, paused, with no tab.
    pub fn new(browsers: Vec<String>) -> (m: BrowserMacOsWorker)
        ensures
            m.browsers == browsers,
            m.is_paused(),
            m.current() is None,
    {
        BrowserMacOsWorker { browsers, paused: true, current_tab: None }
    }

    /// Whether the last report was a pause.
    pub fn paused(&self) -> (r: bool)
        ensures
            r == self.is_paused(),
    {
        self.paused
    }

    /// Ends the poll without music: a pause is reported once, when playing stops.
    fn stop(&mut self) -> (s: MonitorStep)
        ensures
            final(self).browsers == old(self).browsers,
            final(self).is_paused(),
            old(self).is_paused() ==> final(self).current() == old(self).current() && (s matches MonitorStep::Finish(None)),
            !old(self).is_paused() ==> final(self).current() is None && (s matches MonitorStep::Finish(Some(BrowserReport::Paused))),
    {
        let was_playing = !self.paused;
        self.paused = true;
        if was_playing {
            self.current_tab = None;
            MonitorStep::Finish(Some(BrowserReport::Paused))
        } else {
            MonitorStep::Finish(None)
        }
    }

    /// The first step of a poll, once it is known whether Apple Music is
    /// playing: while it plays the browsers are not looked at.
    pub fn on_apple_music(&mut self, playing: bool) -> (s: MonitorStep)
        ensures
            final(self).browsers == old(self).browsers,
            playing ==> final(self).is_paused(),
            playing && old(self).is_paused() ==> final(self).current() == old(self).current() && (s matches MonitorStep::Finish(None)),
            playing && !old(self).is_paused() ==> final(self).current() is None && (s matches MonitorStep::Finish(Some(BrowserReport::Paused))),
            !playing && old(self).browsers.len() > 0 ==> *final(self) == *old(self) && (s matches MonitorStep::AskBrowser(0)),
            !playing && old(self).browsers.len() == 0 ==> Self::remembered_spec(*old(self), *final(self), s),
    {
        if playing {
            self.stop()
        } else if self.browsers.len() > 0 {
            MonitorStep::AskBrowser(0)
        } else {
            self.remembered()
        }
    }

    /// How the poll goes on when no browser offered a music tab: check the
    /// remembered tab if it plays a song, else stop.
    pub open spec fn remembered_spec(before: Self, after: Self, s: MonitorStep) -> bool {
        &&& after.browsers == before.browsers
        &&& match before.current() {
            Some(t) => if tab_song(t) is Some {
                after == before && (s matches MonitorStep::CheckTabOpen(tab) && tab@ == t)
            } else {
                Self::stop_spec(before, after, s)
            },
            None => Self::stop_spec(before, after, s),
        }
    }

    /// Stopping: a pause is reported once, when playing stops.
    pub open spec fn stop_spec(before: Self, after: Self, s: MonitorStep) -> bool {
        &&& after.browsers == before.browsers
        &&& after.is_paused()
        &&& before.is_paused() ==> after.current() == before.current() && (s matches MonitorStep::Finish(None))
        &&& !before.is_paused() ==> after.current() is None && (s matches MonitorStep::Finish(Some(BrowserReport::Paused)))
    }

    fn remembered(&mut self) -> (s: MonitorStep)
        ensures
            Self::remembered_spec(*old(self), *final(self), s),
    {
        let check = match &self.current_tab {
            Some(prev) => {
                if prev.get_music_info().is_some() {
                    Some(prev.duplicate())
                } else {
                    None
                }
            },
            None => None,
        };
        match check {
            Some(tab) => MonitorStep::CheckTabOpen(tab),
            None => self.stop(),
        }
    }

    /// The answer of the browser with index `index`: its active music tab, if any.
    /// A tab that plays a song is reported (and remembered when its title or URL
    /// changed); a tab without a song ends the search; no tab moves on to the
    /// next browser, and after the last one to the remembered tab.
    pub fn on_browser_tab(&mut self, index: usize, found: Option<BrowserTab>) -> (s: MonitorStep)
        requires
            index < old(self).browsers.len(),
        ensures
            final(self).browsers == old(self).browsers,
            match found {
                Some(tab) => match tab_song(tab@) {
                    Some(song) => {
                        &&& !final(self).is_paused()
                        &&& final(self).current() == (match old(self).current() {
                            Some(prev) => if prev.0 != tab@.0 || prev.1 != tab@.1 {
                                Some(tab@)
                            } else {
                                Some(prev)
                            },
                            None => Some(tab@),
                        })
                        &&& (s matches MonitorStep::Finish(Some(r)) && report_wf(r) && report_view(r) == Some(play_of(song)))
                    },
                    None => Self::remembered_spec(*old(self), *final(self), s),
                },
                None => if index + 1 < old(self).browsers.len() {
                    *final(self) == *old(self) && (s matches MonitorStep::AskBrowser(i) && i == index + 1)
                } else {
                    Self::remembered_spec(*old(self), *final(self), s)
                },
            },
    {
        match found {
            Some(tab) => match tab.get_music_info() {
                Some((title, artist, provider)) => {
                    let changed = match &self.current_tab {
                        Some(prev) => !same(&chars_of(prev.title.as_str()), &chars_of(tab.title.as_str()))
                            || !same(&chars_of(prev.url.as_str()), &chars_of(tab.url.as_str())),
                        None => true,
                    };
                    if changed {
                        self.current_tab = Some(tab);
                    }
                    self.paused = false;
                    let info = create_play_info(title, artist, provider);
                    MonitorStep::Finish(Some(BrowserReport::Playing(info)))
                },
                None => self.remembered(),
            },
            None => {
                if index + 1 < self.browsers.len() {
                    MonitorStep::AskBrowser(index + 1)
                } else {
                    self.remembered()
                }
            },
        }
    }

    /// Whether the remembered tab is still open: then it keeps playing, and is
    /// reported again only if the last report was a pause.
    pub fn on_tab_open(&mut self, open: bool) -> (s: MonitorStep)
        ensures
            final(self).browsers == old(self).browsers,
            match (open, old(self).current()) {
                (true, Some(t)) => match tab_song(t) {
                    Some(song) => {
                        &&& !final(self).is_paused()
                        &&& final(self).current() == old(self).current()
                        &&& old(self).is_paused() ==> (s matches MonitorStep::Finish(Some(r)) && report_wf(r) && report_view(r) == Some(play_of(song)))
                        &&& !old(self).is_paused() ==> (s matches MonitorStep::Finish(None))
                    },
                    None => Self::stop_spec(*old(self), *final(self), s),
                },
                _ => Self::stop_spec(*old(self), *final(self), s),
            },
    {
        if open {
            let song = match &self.current_tab {
                Some(prev) => prev.get_music_info(),
                None => None,
            };
            if let Some((title, artist, provider)) = song {
                if self.paused {
                    self.paused = false;
                    let info = create_play_info(title, artist, provider);
                    return MonitorStep::Finish(Some(BrowserReport::Playing(info)));
                }
                return MonitorStep::Finish(None);
            }
        }
        self.stop()
    }
}

} // verus!

verus! {

/// The audio state of a tab from the audio probe's output (a failed probe
/// counts as `false`).
pub fn audio_reply_state(success: bool, stdout: &str) -> (r: AudioState)
    ensures
        r == audio_state_of(reply_text(success, stdout@)),
{
    if success {
        let t = string_of(&trimmed(&chars_of(stdout)));
        AudioState::from_reply(t.as_str())
    } else {
        AudioState::from_reply("false")
    }
}

/// The potential music tabs of `browser` from the listing script's output
/// (a failed listing lists nothing).
pub fn tabs_from_listing(success: bool, stdout: &str, browser: &str) -> (tabs: Vec<BrowserTab>)
    ensures
        tabs_view(tabs@) == media_tabs(if success { stdout@ } else { ""@ }, browser@),
{
    if success {
        parse_media_tabs(stdout, browser)
    } else {
        parse_media_tabs("", browser)
    }
}

} // verus!

verus! {

/// A YouTube video page or a SoundCloud page always yields a song.
pub proof fn law_video_and_soundcloud_pages_yield_a_song(title: Seq<char>, url: Seq<char>, browser: Seq<char>)
    requires
        !contains(url, "music.youtube.com"@),
        contains(url, "youtube.com/watch"@) || contains(url, "soundcloud.com"@),
    ensures
        music_info(title, url, browser) is Some,
{
}

/// A page without a known service and without `music`, `audio` or `player` in
/// its URL yields no song.
pub proof fn law_other_pages_yield_nothing(title: Seq<char>, url: Seq<char>, browser: Seq<char>)
    requires
        !contains(url, "music.youtube.com"@),
        !contains(url, "youtube.com/watch"@),
        !contains(url, "soundcloud.com"@),
        !contains(url, "bandcamp.com"@),
        !contains(url, "open.spotify.com"@),
        !contains(url, "music"@),
        !contains(url, "audio"@),
        !contains(url, "player"@),
    ensures
        music_info(title, url, browser) is None,
{
}

/// The generic extraction yields a song exactly when the cleaned title is not empty.
pub proof fn law_generic_song_iff_title(title: Seq<char>, suffix: Seq<char>, browser: Seq<char>)
    ensures
        generic_info(title, suffix, browser) is Some <==> generic_clean_title(title, suffix).len() > 0,
{
    let clean = generic_clean_title(title, suffix);
    let provider = provider_name(suffix, browser);
    if dash_split(clean, provider) is Some {
        lemma_rfind(clean, " - "@);
    }
}

/// When a tab plays with sound, the tab taken is one that plays with sound.
pub proof fn law_unmuted_tabs_come_first(tabs: Seq<SongView>, states: Seq<AudioState>)
    requires
        tabs.len() == states.len(),
        exists|i: int| 0 <= i < states.len() && #[trigger] states[i] == AudioState::Unmuted,
    ensures
        pick_tab(tabs, states) matches Some(i) && 0 <= i < tabs.len() && states[i] == AudioState::Unmuted,
{
    let sc = url_flags(tabs, "soundcloud.com"@);
    let yt = url_flags(tabs, "youtube.com/watch"@);
    let unmuted = audio_flags(states, AudioState::Unmuted);
    let w = choose|i: int| 0 <= i < states.len() && #[trigger] states[i] == AudioState::Unmuted;
    lemma_first_true_exists(unmuted, w);
    lemma_first_true_from(unmuted, 0);
    lemma_first_true_from(both_flags(unmuted, sc), 0);
    lemma_first_true_from(both_flags(unmuted, yt), 0);
}

proof fn lemma_first_true_exists(s: Seq<bool>, w: int)
    requires
        0 <= w < s.len(),
        s[w],
    ensures
        first_true(s) is Some,
{
    lemma_first_true_from_exists(s, 0, w);
}

proof fn lemma_first_true_from_exists(s: Seq<bool>, i: int, w: int)
    requires
        0 <= i <= w < s.len(),
        s[w],
    ensures
        first_true_from(s, i) is Some,
    decreases w - i,
{
    if !s[i] {
        lemma_first_true_from_exists(s, i + 1, w);
    }
}

/// Every listed tab has a title and a URL, both trimmed, and belongs to the
/// browser that listed it.
pub proof fn law_listed_tabs_are_well_formed(output: Seq<char>, browser: Seq<char>)
    ensures
        forall|k: int| 0 <= k < media_tabs(output, browser).len() ==> {
            let t = #[trigger] media_tabs(output, browser)[k];
            &&& t.0.len() > 0
            &&& t.1.len() > 0
            &&& trim(t.0) == t.0
            &&& trim(t.1) == t.1
            &&& t.2 == browser
        },
{
    lemma_lines_tabs_well_formed(split(trim(output), '\n'), browser);
}

proof fn lemma_lines_tabs_well_formed(lines: Seq<Seq<char>>, browser: Seq<char>)
    ensures
        forall|k: int| 0 <= k < tabs_of_lines(lines, browser).len() ==> {
            let t = #[trigger] tabs_of_lines(lines, browser)[k];
            &&& t.0.len() > 0
            &&& t.1.len() > 0
            &&& trim(t.0) == t.0
            &&& trim(t.1) == t.1
            &&& t.2 == browser
        },
    decreases lines.len(),
{
    if lines.len() > 0 {
        lemma_lines_tabs_well_formed(lines.drop_first(), browser);
        let rest = tabs_of_lines(lines.drop_first(), browser);
        match tab_of_line(lines[0], browser) {
            Some(t) => {
                let line = lines[0];
                let i = find(line, seq!['|'])->0;
                law_trim_idempotent(line.take(i));
                law_trim_idempotent(before_first(line.skip(i + 1), seq!['|']));
                assert forall|k: int| 0 <= k < tabs_of_lines(lines, browser).len() implies {
                    let u = #[trigger] tabs_of_lines(lines, browser)[k];
                    &&& u.0.len() > 0
                    &&& u.1.len() > 0
                    &&& trim(u.0) == u.0
                    &&& trim(u.1) == u.1
                    &&& u.2 == browser
                } by {
                    assert(tabs_of_lines(lines, browser) == seq![t] + rest);
                    if k > 0 {
                        assert(tabs_of_lines(lines, browser)[k] == rest[k - 1]);
                    }
                }
            },
            None => {},
        }
    }
}

/// Once the browsers stop playing, a pause is reported once: stopping again
/// reports nothing.
pub proof fn law_pause_reported_once(
    a: BrowserMacOsWorker,
    b: BrowserMacOsWorker,
    c: BrowserMacOsWorker,
    s1: MonitorStep,
    s2: MonitorStep,
)
    requires
        BrowserMacOsWorker::stop_spec(a, b, s1),
        BrowserMacOsWorker::stop_spec(b, c, s2),
    ensures
        s2 matches MonitorStep::Finish(None),
        c.current() == b.current(),
{
}

} // verus!

verus! {

// ---------------------------------------------------------------------------
// What the recognisers and the tab choice are for, stated over positions of
// the text and over the tabs themselves.
// ---------------------------------------------------------------------------

/// The `n` characters of `s` from position `j` on.
pub open spec fn window(s: Seq<char>, j: int, n: int) -> Seq<char> {
    s.subrange(j, j + n)
}

/// `p` occurs in `s` at position `i`, and nowhere before it.
pub open spec fn first_at(s: Seq<char>, p: Seq<char>, i: int) -> bool {
    &&& 0 <= i
    &&& i + p.len() <= s.len()
    &&& s.subrange(i, i + p.len()) == p
    &&& forall|j: int| 0 <= j < i ==> #[trigger] window(s, j, p.len() as int) != p
}

/// `p` occurs in `s` at position `i`, and nowhere after it.
pub open spec fn last_at(s: Seq<char>, p: Seq<char>, i: int) -> bool {
    &&& 0 <= i
    &&& i + p.len() <= s.len()
    &&& s.subrange(i, i + p.len()) == p
    &&& forall|j: int| i < j && j + p.len() <= s.len() ==> #[trigger] window(s, j, p.len() as int) != p
}

/// `p` occurs nowhere in `s`.
pub open spec fn absent(s: Seq<char>, p: Seq<char>) -> bool {
    forall|j: int| 0 <= j && j + p.len() <= s.len() ==> #[trigger] window(s, j, p.len() as int) != p
}

proof fn lemma_first_at_is_found(s: Seq<char>, p: Seq<char>, i: int)
    requires
        first_at(s, p, i),
    ensures
        find(s, p) == Some(i),
{
    law_find_gives_first_occurrence(s, p, 0);
    lemma_find_from_bounds(s, p, 0);
    assert(match_at(s, p, i));
    match find(s, p) {
        Some(j) => {
            assert(match_at(s, p, j));
            if j < i {
                assert(window(s, j, p.len() as int) == p);
            }
        },
        None => {},
    }
}

proof fn lemma_last_at_is_found(s: Seq<char>, p: Seq<char>, i: int)
    requires
        last_at(s, p, i),
    ensures
        rfind(s, p) == Some(i),
{
    lemma_rfind(s, p);
    assert(match_at(s, p, i));
    match rfind(s, p) {
        Some(j) => {
            assert(match_at(s, p, j));
            if j > i {
                assert(window(s, j, p.len() as int) == p);
            }
        },
        None => {},
    }
}

proof fn lemma_absent_is_not_found(s: Seq<char>, p: Seq<char>)
    requires
        absent(s, p),
    ensures
        find(s, p) is None,
        rfind(s, p) is None,
{
    lemma_rfind(s, p);
    lemma_find_from_bounds(s, p, 0);
    match find(s, p) {
        Some(j) => {
            assert(match_at(s, p, j));
            assert(window(s, j, p.len() as int) == p);
        },
        None => {},
    }
    match rfind(s, p) {
        Some(j) => {
            assert(match_at(s, p, j));
            assert(window(s, j, p.len() as int) == p);
        },
        None => {},
    }
}

/// On a SoundCloud page the title reads `Artist - Title`: the artist is the
/// text before the first ` - ` of the cleaned title (so it holds no ` - `), the
/// song is all the rest; without a ` - ` the whole cleaned title is the song,
/// by `SoundCloud`.
pub proof fn law_soundcloud_artist_comes_first(title: Seq<char>, url: Seq<char>, browser: Seq<char>, i: int)
    requires
        contains(url, "soundcloud.com"@),
        !contains(url, "music.youtube.com"@),
        !contains(url, "youtube.com/watch"@),
    ensures
        first_at(soundcloud_clean_title(title), " - "@, i) ==> music_info(title, url, browser) == Some(
            (
                trim(soundcloud_clean_title(title).skip(i + 3)),
                trim(soundcloud_clean_title(title).take(i)),
                "soundcloud"@,
            ),
        ),
        absent(soundcloud_clean_title(title), " - "@) ==> music_info(title, url, browser) == Some(
            (soundcloud_clean_title(title), "SoundCloud"@, "soundcloud"@),
        ),
{
    let clean = soundcloud_clean_title(title);
    reveal_strlit(" - ");
    if first_at(clean, " - "@, i) {
        lemma_first_at_is_found(clean, " - "@, i);
    }
    if absent(clean, " - "@) {
        lemma_absent_is_not_found(clean, " - "@);
    }
}

/// On a YouTube Music page the title reads `Song - Artist - YouTube Music`:
/// before the last ` - YouTube Music`, the artist is the text after the last
/// ` - ` (so it holds no ` - `) and the song is the text before it.
pub proof fn law_youtube_music_artist_comes_last(
    title: Seq<char>,
    url: Seq<char>,
    browser: Seq<char>,
    idx: int,
    sep: int,
)
    requires
        contains(url, "music.youtube.com"@),
        last_at(title, " - YouTube Music"@, idx),
        last_at(title.take(idx), " - "@, sep),
    ensures
        music_info(title, url, browser) == Some(
            (trim(title.take(idx).take(sep)), trim(title.take(idx).skip(sep + 3)), "youtube-music"@),
        ),
{
    reveal_strlit(" - ");
    lemma_last_at_is_found(title, " - YouTube Music"@, idx);
    lemma_last_at_is_found(title.take(idx), " - "@, sep);
}

/// On a YouTube video page the cleaned title reads `Title - Artist`: the artist
/// is the text after its last ` - `, the song the text before; without a
/// ` - ` the whole cleaned title is the song, by `YouTube`.
pub proof fn law_youtube_artist_comes_last(title: Seq<char>, url: Seq<char>, browser: Seq<char>, sep: int)
    requires
        !contains(url, "music.youtube.com"@),
        contains(url, "youtube.com/watch"@),
    ensures
        last_at(youtube_clean_title(title), " - "@, sep) ==> music_info(title, url, browser) == Some(
            (
                trim(youtube_clean_title(title).take(sep)),
                trim(youtube_clean_title(title).skip(sep + 3)),
                "youtube"@,
            ),
        ),
        absent(youtube_clean_title(title), " - "@) ==> music_info(title, url, browser) == Some(
            (youtube_clean_title(title), "YouTube"@, "youtube"@),
        ),
{
    let clean = youtube_clean_title(title);
    reveal_strlit(" - ");
    if last_at(clean, " - "@, sep) {
        lemma_last_at_is_found(clean, " - "@, sep);
    }
    if absent(clean, " - "@) {
        lemma_absent_is_not_found(clean, " - "@);
    }
}

/// On a Bandcamp page the title reads `Song, by Artist`: split at the first
/// `, by `.
pub proof fn law_bandcamp_song_then_artist(title: Seq<char>, url: Seq<char>, browser: Seq<char>, i: int)
    requires
        !contains(url, "music.youtube.com"@),
        !contains(url, "youtube.com/watch"@),
        !contains(url, "soundcloud.com"@),
        contains(url, "bandcamp.com"@),
        first_at(title, ", by "@, i),
    ensures
        music_info(title, url, browser) == Some(
            (trim(title.take(i)), trim(title.skip(i + 5)), "bandcamp"@),
        ),
{
    reveal_strlit(", by ");
    lemma_first_at_is_found(title, ", by "@, i);
}

/// `f` holds at `k`, a position below `n`, and at no position before it.
pub open spec fn first_where(n: int, f: spec_fn(int) -> bool, k: int) -> bool {
    &&& 0 <= k < n
    &&& f(k)
    &&& forall|j: int| 0 <= j < k ==> !#[trigger] f(j)
}

/// `f` holds at `k`, a position below `n`, and at no position after it.
pub open spec fn last_where(n: int, f: spec_fn(int) -> bool, k: int) -> bool {
    &&& 0 <= k < n
    &&& f(k)
    &&& forall|j: int| k < j < n ==> !#[trigger] f(j)
}

/// `f` holds at some position below `n`.
pub open spec fn some_where(n: int, f: spec_fn(int) -> bool) -> bool {
    exists|j: int| 0 <= j < n && #[trigger] f(j)
}

proof fn lemma_first_true_is_first(s: Seq<bool>, f: spec_fn(int) -> bool)
    requires
        forall|j: int| 0 <= j < s.len() ==> s[j] == #[trigger] f(j),
    ensures
        first_true(s) matches Some(k) ==> first_where(s.len() as int, f, k),
        first_true(s) is None <==> !some_where(s.len() as int, f),
{
    lemma_first_true_scan(s, 0);
    if first_true(s) is None {
        assert forall|j: int| 0 <= j < s.len() implies !#[trigger] f(j) by {
            assert(!s[j]);
        }
    } else {
        let k = first_true(s)->0;
        assert(f(k));
    }
}

proof fn lemma_first_true_scan(s: Seq<bool>, i: int)
    requires
        0 <= i,
    ensures
        first_true_from(s, i) matches Some(k) ==> i <= k < s.len() && s[k] && forall|j: int| i <= j < k ==> !s[j],
        first_true_from(s, i) is None ==> forall|j: int| i <= j < s.len() ==> !s[j],
    decreases s.len() - i,
{
    if i < s.len() && !s[i] {
        lemma_first_true_scan(s, i + 1);
    }
}

proof fn lemma_last_true_scan(s: Seq<bool>, k: int)
    requires
        0 <= k <= s.len(),
    ensures
        last_true_below(s, k) matches Some(m) ==> 0 <= m < k && s[m] && forall|j: int| m < j < k ==> !s[j],
        last_true_below(s, k) is None ==> forall|j: int| 0 <= j < k ==> !s[j],
    decreases k,
{
    if k > 0 && !s[k - 1] {
        lemma_last_true_scan(s, k - 1);
    }
}

proof fn lemma_last_true_is_last(s: Seq<bool>, f: spec_fn(int) -> bool)
    requires
        forall|j: int| 0 <= j < s.len() ==> s[j] == #[trigger] f(j),
    ensures
        last_true(s) matches Some(k) ==> last_where(s.len() as int, f, k),
        last_true(s) is None <==> !some_where(s.len() as int, f),
{
    lemma_last_true_scan(s, s.len() as int);
    if last_true(s) is None {
        assert forall|j: int| 0 <= j < s.len() implies !#[trigger] f(j) by {
            assert(!s[j]);
        }
    } else {
        let k = last_true(s)->0;
        assert(f(k));
    }
}

/// The tab taken from the tabs whose audio state is `a`: the first of them on
/// SoundCloud, else the first of them showing a YouTube video, else the first
/// of them.
pub open spec fn taken_from_group(tabs: Seq<SongView>, states: Seq<AudioState>, a: AudioState, k: int) -> bool {
    let n = tabs.len() as int;
    let g = state_is(states, a);
    let g_sc = group_with(tabs, states, a, "soundcloud.com"@);
    let g_yt = group_with(tabs, states, a, "youtube.com/watch"@);
    if some_where(n, g_sc) {
        first_where(n, g_sc, k)
    } else if some_where(n, g_yt) {
        first_where(n, g_yt, k)
    } else {
        first_where(n, g, k)
    }
}

/// Whether a tab's audio state is `a` and its URL contains `pat`.
pub open spec fn group_with(tabs: Seq<SongView>, states: Seq<AudioState>, a: AudioState, pat: Seq<char>) -> spec_fn(
    int,
) -> bool {
    |j: int| states[j] == a && contains(tabs[j].1, pat)
}

proof fn lemma_group_pick(tabs: Seq<SongView>, states: Seq<AudioState>, a: AudioState)
    requires
        tabs.len() == states.len(),
        some_where(tabs.len() as int, state_is(states, a)),
    ensures
        pick_in_group(
            audio_flags(states, a),
            url_flags(tabs, "soundcloud.com"@),
            url_flags(tabs, "youtube.com/watch"@),
        ) matches Some(k) && taken_from_group(tabs, states, a, k),
{
    let n = tabs.len() as int;
    let grp = audio_flags(states, a);
    let sc = url_flags(tabs, "soundcloud.com"@);
    let yt = url_flags(tabs, "youtube.com/watch"@);
    let g = state_is(states, a);
    let g_sc = group_with(tabs, states, a, "soundcloud.com"@);
    let g_yt = group_with(tabs, states, a, "youtube.com/watch"@);
    let bsc = both_flags(grp, sc);
    let byt = both_flags(grp, yt);
    assert forall|j: int| 0 <= j < grp.len() implies grp[j] == #[trigger] g(j) by {}
    assert forall|j: int| 0 <= j < bsc.len() implies bsc[j] == #[trigger] g_sc(j) by {}
    assert forall|j: int| 0 <= j < byt.len() implies byt[j] == #[trigger] g_yt(j) by {}
    lemma_first_true_is_first(grp, g);
    lemma_first_true_is_first(bsc, g_sc);
    lemma_first_true_is_first(byt, g_yt);
}

/// Among tabs that play, those with sound come first, then muted ones; within
/// that group a SoundCloud tab is preferred, then a YouTube video, then the
/// first tab of the group, each the first of its kind.
pub proof fn law_playing_tabs_prefer_soundcloud_then_youtube(tabs: Seq<SongView>, states: Seq<AudioState>)
    requires
        tabs.len() == states.len(),
    ensures
        some_where(tabs.len() as int, state_is(states, AudioState::Unmuted)) ==> (pick_tab(
            tabs,
            states,
        ) matches Some(k) && taken_from_group(tabs, states, AudioState::Unmuted, k)),
        !some_where(tabs.len() as int, state_is(states, AudioState::Unmuted)) && some_where(
            tabs.len() as int,
            state_is(states, AudioState::Muted),
        ) ==> (pick_tab(tabs, states) matches Some(k) && taken_from_group(tabs, states, AudioState::Muted, k)),
{
    let un = audio_flags(states, AudioState::Unmuted);
    let mu = audio_flags(states, AudioState::Muted);
    let fu = state_is(states, AudioState::Unmuted);
    let fm = state_is(states, AudioState::Muted);
    assert forall|j: int| 0 <= j < un.len() implies un[j] == #[trigger] fu(j) by {}
    assert forall|j: int| 0 <= j < mu.len() implies mu[j] == #[trigger] fm(j) by {}
    lemma_first_true_is_first(un, fu);
    lemma_first_true_is_first(mu, fm);
    if some_where(tabs.len() as int, fu) {
        lemma_group_pick(tabs, states, AudioState::Unmuted);
    } else if some_where(tabs.len() as int, fm) {
        lemma_group_pick(tabs, states, AudioState::Muted);
    }
}

/// Whether a tab's URL contains `pat`.
pub open spec fn url_has(tabs: Seq<SongView>, pat: Seq<char>) -> spec_fn(int) -> bool {
    |j: int| contains(tabs[j].1, pat)
}

/// Whether a tab's audio state is `a`.
pub open spec fn state_is(states: Seq<AudioState>, a: AudioState) -> spec_fn(int) -> bool {
    |j: int| states[j] == a
}

/// When no tab plays (with or without sound), the service decides: the last
/// SoundCloud tab, else the last YouTube video, else the last YouTube Music
/// tab, else the last Spotify tab; without any of these, the first tab that is
/// likely playing, else the first media page, else the first active tab, else
/// the first tab.
pub proof fn law_silent_tabs_by_service(tabs: Seq<SongView>, states: Seq<AudioState>)
    requires
        tabs.len() == states.len(),
        forall|j: int| 0 <= j < states.len() ==> #[trigger] states[j] != AudioState::Unmuted && states[j] != AudioState::Muted,
    ensures
        some_where(tabs.len() as int, url_has(tabs, "soundcloud.com"@)) ==> (pick_tab(tabs, states) matches Some(k)
            && last_where(tabs.len() as int, url_has(tabs, "soundcloud.com"@), k)),
        !some_where(tabs.len() as int, url_has(tabs, "soundcloud.com"@)) && some_where(
            tabs.len() as int,
            url_has(tabs, "youtube.com/watch"@),
        ) ==> (pick_tab(tabs, states) matches Some(k) && last_where(
            tabs.len() as int,
            url_has(tabs, "youtube.com/watch"@),
            k,
        )),
        !some_where(tabs.len() as int, url_has(tabs, "soundcloud.com"@)) && !some_where(
            tabs.len() as int,
            url_has(tabs, "youtube.com/watch"@),
        ) && some_where(tabs.len() as int, url_has(tabs, "music.youtube.com"@)) ==> (pick_tab(tabs, states) matches Some(
            k,
        ) && last_where(tabs.len() as int, url_has(tabs, "music.youtube.com"@), k)),
        !some_where(tabs.len() as int, url_has(tabs, "soundcloud.com"@)) && !some_where(
            tabs.len() as int,
            url_has(tabs, "youtube.com/watch"@),
        ) && !some_where(tabs.len() as int, url_has(tabs, "music.youtube.com"@)) && some_where(
            tabs.len() as int,
            url_has(tabs, "open.spotify.com"@),
        ) ==> (pick_tab(tabs, states) matches Some(k) && last_where(
            tabs.len() as int,
            url_has(tabs, "open.spotify.com"@),
            k,
        )),
        !some_where(tabs.len() as int, url_has(tabs, "soundcloud.com"@)) && !some_where(
            tabs.len() as int,
            url_has(tabs, "youtube.com/watch"@),
        ) && !some_where(tabs.len() as int, url_has(tabs, "music.youtube.com"@)) && !some_where(
            tabs.len() as int,
            url_has(tabs, "open.spotify.com"@),
        ) ==> (if some_where(tabs.len() as int, state_is(states, AudioState::Likely)) {
            pick_tab(tabs, states) matches Some(k) && first_where(
                tabs.len() as int,
                state_is(states, AudioState::Likely),
                k,
            )
        } else if some_where(tabs.len() as int, state_is(states, AudioState::Media)) {
            pick_tab(tabs, states) matches Some(k) && first_where(
                tabs.len() as int,
                state_is(states, AudioState::Media),
                k,
            )
        } else if some_where(tabs.len() as int, state_is(states, AudioState::Active)) {
            pick_tab(tabs, states) matches Some(k) && first_where(
                tabs.len() as int,
                state_is(states, AudioState::Active),
                k,
            )
        } else {
            pick_tab(tabs, states) == (if tabs.len() > 0 { Some(0int) } else { None })
        }),
{
    let n = tabs.len() as int;
    let un = audio_flags(states, AudioState::Unmuted);
    let mu = audio_flags(states, AudioState::Muted);
    lemma_first_true_scan(un, 0);
    lemma_first_true_scan(mu, 0);
    assert(first_true(un) is None);
    assert(first_true(mu) is None);
    let f_sc = url_has(tabs, "soundcloud.com"@);
    let f_yt = url_has(tabs, "youtube.com/watch"@);
    let f_ytm = url_has(tabs, "music.youtube.com"@);
    let f_sp = url_has(tabs, "open.spotify.com"@);
    let s_sc = service_flags(tabs, Service::SoundCloud);
    let s_yt = service_flags(tabs, Service::YouTube);
    let s_ytm = service_flags(tabs, Service::YouTubeMusic);
    let s_sp = service_flags(tabs, Service::Spotify);
    assert forall|j: int| 0 <= j < s_sc.len() implies s_sc[j] == #[trigger] f_sc(j) by {}
    lemma_last_true_is_last(s_sc, f_sc);
    if !some_where(n, f_sc) {
        assert forall|j: int| 0 <= j < s_yt.len() implies s_yt[j] == #[trigger] f_yt(j) by {
            assert(!f_sc(j));
        }
        lemma_last_true_is_last(s_yt, f_yt);
        if !some_where(n, f_yt) {
            assert forall|j: int| 0 <= j < s_ytm.len() implies s_ytm[j] == #[trigger] f_ytm(j) by {
                assert(!f_sc(j));
                assert(!f_yt(j));
            }
            lemma_last_true_is_last(s_ytm, f_ytm);
            if !some_where(n, f_ytm) {
                assert forall|j: int| 0 <= j < s_sp.len() implies s_sp[j] == #[trigger] f_sp(j) by {
                    assert(!f_sc(j));
                    assert(!f_yt(j));
                    assert(!f_ytm(j));
                }
                lemma_last_true_is_last(s_sp, f_sp);
                let li = audio_flags(states, AudioState::Likely);
                let me = audio_flags(states, AudioState::Media);
                let ac = audio_flags(states, AudioState::Active);
                let g_li = state_is(states, AudioState::Likely);
                let g_me = state_is(states, AudioState::Media);
                let g_ac = state_is(states, AudioState::Active);
                assert forall|j: int| 0 <= j < li.len() implies li[j] == #[trigger] g_li(j) by {}
                assert forall|j: int| 0 <= j < me.len() implies me[j] == #[trigger] g_me(j) by {}
                assert forall|j: int| 0 <= j < ac.len() implies ac[j] == #[trigger] g_ac(j) by {}
                lemma_first_true_is_first(li, g_li);
                lemma_first_true_is_first(me, g_me);
                lemma_first_true_is_first(ac, g_ac);
            }
        }
    }
}

/// Each reply of the audio probe names its own state: exactly `true-unmuted`
/// is read as sound, `true-muted` as muted, `true-likely` as likely playing,
/// `true-media` as a media page and `true-active` as the active tab; every
/// other reply as silent.
pub proof fn law_each_reply_names_its_state(reply: Seq<char>)
    ensures
        (audio_state_of(reply) == AudioState::Unmuted) == (reply == "true-unmuted"@),
        (audio_state_of(reply) == AudioState::Muted) == (reply == "true-muted"@),
        (audio_state_of(reply) == AudioState::Likely) == (reply == "true-likely"@),
        (audio_state_of(reply) == AudioState::Media) == (reply == "true-media"@),
        (audio_state_of(reply) == AudioState::Active) == (reply == "true-active"@),
        (audio_state_of(reply) == AudioState::Silent) == (reply != "true-unmuted"@ && reply != "true-muted"@
            && reply != "true-likely"@ && reply != "true-media"@ && reply != "true-active"@),
{
    reveal_strlit("true-unmuted");
    reveal_strlit("true-muted");
    reveal_strlit("true-likely");
    reveal_strlit("true-media");
    reveal_strlit("true-active");
    assert("true-unmuted"@ != "true-muted"@ && "true-unmuted"@ != "true-likely"@ && "true-unmuted"@ != "true-media"@
        && "true-unmuted"@ != "true-active"@) by {
        assert("true-unmuted"@.len() == 12);
    }
    assert("true-muted"@ != "true-likely"@ && "true-muted"@ != "true-active"@) by {
        assert("true-muted"@.len() == 10);
    }
    assert("true-muted"@ != "true-media"@) by {
        assert("true-muted"@[6] != "true-media"@[6]);
    }
    assert("true-likely"@ != "true-media"@) by {
        assert("true-likely"@.len() == 11);
    }
    assert("true-likely"@ != "true-active"@) by {
        assert("true-likely"@[5] != "true-active"@[5]);
    }
    assert("true-media"@ != "true-active"@) by {
        assert("true-media"@.len() == 10);
    }
}

} // verus!
