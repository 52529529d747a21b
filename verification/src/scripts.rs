//! The AppleScript programs that the players and browsers are asked through,
//! and how their replies are read.
use vstd::prelude::*;

use crate::player::PlayerError;
use crate::text::{chars_of, same, string_of, trim, trimmed};

verus! {

/// Script text: is Spotify running.
pub const SPOTIFY_RUNNING: &'static str = "tell application \"System Events\" to (name of processes) contains \"Spotify\"";

/// Script text: Spotify's player state.
pub const SPOTIFY_STATE: &'static str = "tell application \"Spotify\" to player state as string";

/// Script text: is Music running.
pub const MUSIC_RUNNING: &'static str = "tell application \"System Events\" to (name of processes) contains \"Music\"";

/// Script text: Music's player state.
pub const MUSIC_STATE: &'static str = "tell application \"Music\" to player state as string";

/// Script text: audio probe 0.
pub const AUDIO_PROBE_0: &'static str = r##"
            tell application "System Events"
                set browserRunning to application process ""##;

/// Script text: audio probe 1.
pub const AUDIO_PROBE_1: &'static str = r##"" exists
            end tell
            
            if browserRunning then
                tell application ""##;

/// Script text: audio probe 2.
pub const AUDIO_PROBE_2: &'static str = r##""
                    if it is running then
                        set windowCount to count of windows
                        
                        if windowCount > 0 then
                            repeat with windowIndex from 1 to windowCount
                                set currentWindow to window windowIndex
                                
                                try
                                    set tabCount to count of tabs of currentWindow
                                    
                                    if tabCount > 0 then
                                        repeat with tabIndex from 1 to tabCount
                                            set currentTab to tab tabIndex of currentWindow
                                            
                                            try
                                                if URL of currentTab contains ""##;

/// Script text: audio probe 3.
pub const AUDIO_PROBE_3: &'static str = r##"" then
                                                    -- JavaScript específico para detectar reproducción de audio en Chromium
                                                    set jsResult to execute currentTab javascript "
                                                        (function() {
                                                            // Analizar la página para detectar elementos multimedia
                                                            
                                                            // 1. Comprobar paneles de reproducción multimedia específicos de Brave/Chrome
                                                            // Estos elementos aparecen en el mini-reproductor que se muestra para los medios activos
                                                            const mediaControls = document.querySelector('#media-button.media-button--playing, .ytp-miniplayer-button[aria-pressed=\"true\"]');
                                                            if (mediaControls) {
                                                                // Si encontramos controles de reproducción activos, verificamos si está muteado
                                                                const volumeButton = document.querySelector('.ytp-mute-button[aria-label*=\"Unmute\"], button[aria-label*=\"activar el sonido\"], button[title*=\"Unmute\"]');
                                                                if (volumeButton) {
                                                                    return 'playing-muted'; // Reproduciendo pero muteado
                                                                } else {
                                                                    return 'playing-unmuted'; // Reproduciendo con sonido
                                                                }
                                                            }
                                                            
                                                            // 2. Detectar elementos <audio> o <video> estándar que estén reproduciendo
                                                            const mediaElements = Array.from(document.querySelectorAll('audio, video'));
                                                            for (const element of mediaElements) {
                                                                // Verificar si el elemento está reproduciendo y no está en pausa
                                                                if (!element.paused && element.currentTime > 0) {
                                                                    if (element.muted || element.volume === 0) {
                                                                        return 'playing-muted';
                                                                    } else {
                                                                        return 'playing-unmuted';
                                                                    }
                                                                }
                                                            }
                                                            
                                                            // 3. Casos específicos para diferentes plataformas
                                                            
                                                            // YouTube
                                                            if (window.location.href.includes('youtube.com')) {
                                                                // Verificar si hay botón de pausa (lo que indica reproducción activa)
                                                                const pauseButton = document.querySelector('button[aria-label*=\"Pause\"], button[aria-label*=\"pausar\"], button[aria-label*=\"pausa\"]');
                                                                if (pauseButton) {
                                                                    // Está reproduciendo, verificar si está muteado
                                                                    const muteButton = document.querySelector('button[aria-label*=\"Unmute\"], button[aria-label*=\"activar\"], button[title*=\"Unmute\"]');
                                                                    const volumeSlider = document.querySelector('.ytp-volume-slider-handle');
                                                                    const volumePanel = document.querySelector('.ytp-volume-panel');
                                                                    
                                                                    if (muteButton || (volumeSlider && volumeSlider.style.left === '0px') || (volumePanel && volumePanel.getAttribute('aria-valuenow') === '0')) {
                                                                        return 'playing-muted';
                                                                    } else {
                                                                        return 'playing-unmuted';
                                                                    }
                                                                }
                                                            }
                                                            
                                                            // SoundCloud
                                                            if (window.location.href.includes('soundcloud.com')) {
                                                                const playButton = document.querySelector('.playControl.playing');
                                                                if (playButton) {
                                                                    const volumeButton = document.querySelector('.volume__button.muted');
                                                                    if (volumeButton || document.querySelector('.volume__sliderProgress[style*=\"width: 0%\"]')) {
                                                                        return 'playing-muted';
                                                                    } else {
                                                                        return 'playing-unmuted';
                                                                    }
                                                                }
                                                            }
                                                            
                                                            // 4. Último recurso: buscar indicadores visuales en el DOM
                                                            // Buscar elementos que suelen indicar reproducción activa
                                                            const playingIndicators = document.querySelectorAll('.playing, [class*=\"playing\"], [data-playing=\"true\"], [aria-label*=\"playing\"]');
                                                            if (playingIndicators.length > 0) {
                                                                // Encontramos algún indicador de reproducción, asumimos que está reproduciendo 
                                                                // pero no podemos determinar si está muteado
                                                                return 'playing-likely';
                                                            }
                                                            
                                                            // 5. Verificar si la página tiene el título cambiado dinámicamente (común en reproductores)
                                                            // Esto puede ayudar a detectar reproductores web personalizados
                                                            if (document.title.includes(' - ') && 
                                                                (document.title.includes('YouTube') || 
                                                                 document.title.includes('SoundCloud') || 
                                                                 document.title.includes('Music'))) {
                                                                return 'likely-media';
                                                            }
                                                            
                                                            // No se encontró reproducción activa
                                                            return 'not-playing';
                                                        })()
                                                    "
                                                    
                                                    if jsResult is "playing-unmuted" then
                                                        return "true-unmuted"
                                                    else if jsResult is "playing-muted" then
                                                        return "true-muted"
                                                    else if jsResult is "playing-likely" then
                                                        return "true-likely"
                                                    else if jsResult is "likely-media" then
                                                        return "true-media"
                                                    else
                                                        -- Verificar si es la pestaña activa
                                                        if currentTab is active tab of currentWindow then
                                                            return "true-active"
                                                        end if
                                                    end if
                                                end if
                                            end if
                                        on error errMsg
                                            -- Error al evaluar JavaScript
                                            log "Error JavaScript: " & errMsg
                                        end try
                                    end repeat
                                end if
                            on error
                                -- Error al acceder a las pestañas
                            end try
                        end repeat
                    end if
                end tell
            end if
            
            return "false"
            "##;

/// Script text: tab open 0.
pub const TAB_OPEN_0: &'static str = r##"
            tell application "System Events"
                set browserRunning to application process ""##;

/// Script text: tab open 1.
pub const TAB_OPEN_1: &'static str = r##"" exists
            end tell
            
            if browserRunning then
                tell application ""##;

/// Script text: tab open 2.
pub const TAB_OPEN_2: &'static str = r##""
                    if it is running then
                        set windowCount to count of windows
                        
                        if windowCount > 0 then
                            repeat with windowIndex from 1 to windowCount
                                set currentWindow to window windowIndex
                                
                                try
                                    set tabCount to count of tabs of currentWindow
                                    
                                    if tabCount > 0 then
                                        repeat with tabIndex from 1 to tabCount
                                            set currentTab to tab tabIndex of currentWindow
                                            
                                            try
                                                if URL of currentTab is ""##;

/// Script text: tab open 3.
pub const TAB_OPEN_3: &'static str = r##"" then
                                                    return "true"
                                                end if
                                            on error
                                                -- Continuar si no podemos leer la URL
                                            end try
                                        end repeat
                                    end if
                                on error
                                    -- Continuar si no podemos leer las pestañas
                                end try
                            end repeat
                        end if
                    end if
                end tell
            end if
            
            return "false"
            "##;

/// Script text: tab listing 0.
pub const TAB_LISTING_0: &'static str = r##"
            tell application "System Events"
                set browserRunning to application process ""##;

/// Script text: tab listing 1.
pub const TAB_LISTING_1: &'static str = r##"" exists
            end tell
            
            set mediaResults to ""
            
            if browserRunning then
                tell application ""##;

/// Script text: tab listing 2.
pub const TAB_LISTING_2: &'static str = r##""
                    if it is running then
                        set windowCount to count of windows
                        
                        if windowCount > 0 then
                            repeat with windowIndex from 1 to windowCount
                                set currentWindow to window windowIndex
                                
                                try
                                    set tabCount to count of tabs of currentWindow
                                    
                                    if tabCount > 0 then
                                        repeat with tabIndex from 1 to tabCount
                                            set currentTab to tab tabIndex of currentWindow
                                            
                                            try
                                                set currentURL to URL of currentTab
                                                set pageTitle to title of currentTab
                                                
                                                -- Verificar si la pestaña es potencialmente de música
                                                if currentURL contains "youtube.com/watch" or currentURL contains "music.youtube.com" or currentURL contains "soundcloud.com" or currentURL contains "bandcamp.com" or currentURL contains "open.spotify.com" or currentURL contains "music" or currentURL contains "audio" or currentURL contains "player" then
                                                    set mediaResults to mediaResults & pageTitle & "|" & currentURL & "\n"
                                                end if
                                            on error
                                                -- Error al obtener URL o título
                                            end try
                                        end repeat
                                    end if
                                on error
                                    -- Error al acceder a las pestañas
                                end try
                            end repeat
                        end if
                    end if
                end tell
            end if
            
            return mediaResults
            "##;

/// Script text: apple music playing.
pub const APPLE_MUSIC_PLAYING: &'static str = r##"
        tell application "System Events"
            set musicAppRunning to application process "Music" exists
        end tell
        
        if musicAppRunning then
            tell application "Music"
                if it is running then
                    if player state is playing then
                        return "true"
                    end if
                end if
            end tell
        end if
        
        return "false"
        "##;

/// Script text: spotify track.
pub const SPOTIFY_TRACK: &'static str = r##"
            tell application "Spotify"
                set currentTrack to current track
                set trackName to name of currentTrack as string
                set artistName to artist of currentTrack as string
                set albumName to album of currentTrack as string
                
                set trackNumber to "null"
                try
                    if track number of currentTrack is not missing value then
                        set trackNumber to track number of currentTrack
                    end if
                end try
                
                set output to "{"
                set output to output & "\"title\": \"" & my escape_quotes(trackName) & "\", "
                set output to output & "\"artist\": \"" & my escape_quotes(artistName) & "\", "
                set output to output & "\"album\": {"
                set output to output & "\"title\": \"" & my escape_quotes(albumName) & "\", "
                set output to output & "\"track_count\": 0"
                set output to output & "}"
                
                if trackNumber is not "null" then
                    set output to output & ", \"track_number\": " & trackNumber
                end if
                
                set output to output & "}"
                return output
            end tell
            
            on escape_quotes(theText)
                set AppleScript's text item delimiters to "\""
                set theTextItems to every text item of theText
                set AppleScript's text item delimiters to "\\\""
                set theText to theTextItems as string
                set AppleScript's text item delimiters to ""
                return theText
            end escape_quotes
        "##;

/// Script text: spotify timeline.
pub const SPOTIFY_TIMELINE: &'static str = r##"
            tell application "Spotify"
                set progress_secs to 0
                set duration_secs to 0
                
                try
                    set progress_secs to player position
                    set duration_secs to duration of current track
                end try
                
                set json to "{"
                set json to json & "\"progress\": " & progress_secs & ", "
                set json to json & "\"duration\": " & duration_secs
                set json to json & "}"
                return json
            end tell
        "##;

/// Script text: music track.
pub const MUSIC_TRACK: &'static str = r##"
            tell application "Music"
                set currentTrack to current track
                set trackName to name of currentTrack as string
                set artistName to artist of currentTrack as string
                set albumName to album of currentTrack as string
                
                set trackCount to 0
                try
                    set trackCount to track count of (get album of currentTrack)
                end try
                
                set trackNumber to "null"
                try
                    if track number of currentTrack is not missing value then
                        set trackNumber to track number of currentTrack
                    end if
                end try
                
                set output to "{"
                set output to output & "\"title\": \"" & my escape_quotes(trackName) & "\", "
                set output to output & "\"artist\": \"" & my escape_quotes(artistName) & "\", "
                set output to output & "\"album\": {"
                set output to output & "\"title\": \"" & my escape_quotes(albumName) & "\", "
                set output to output & "\"track_count\": " & trackCount
                set output to output & "}"
                
                if trackNumber is not "null" then
                    set output to output & ", \"track_number\": " & trackNumber
                end if
                
                set output to output & "}"
                return output
            end tell
            
            on escape_quotes(theText)
                set AppleScript's text item delimiters to "\""
                set theTextItems to every text item of theText
                set AppleScript's text item delimiters to "\\\""
                set theText to theTextItems as string
                set AppleScript's text item delimiters to ""
                return theText
            end escape_quotes
        "##;

/// Script text: music timeline.
pub const MUSIC_TIMELINE: &'static str = r##"
            tell application "Music"
                set progress_secs to 0
                set duration_secs to 0
                
                try
                    set progress_secs to player position
                    set duration_secs to duration of current track
                end try
                
                set json to "{"
                set json to json & "\"progress\": " & progress_secs & ", "
                set json to json & "\"duration\": " & duration_secs
                set json to json & "}"
                return json
            end tell
        "##;

/// Script text: music artwork.
pub const MUSIC_ARTWORK: &'static str = r##"
            on run
                tell application "Music"
                    try
                        if player state is playing then
                            set currentTrack to current track
                            set artworkPath to "/tmp/music_artwork.jpg"
                            
                            -- Limpiar el archivo anterior si existe
                            do shell script "rm -f " & quoted form of artworkPath
                            
                            -- Enfoque directo usando osascript inline para extraer 
                            -- y guardar la portada, evitando problemas de tipo de pista
                            set hasArtwork to false
                            
                            if exists artwork 1 of currentTrack then
                                -- Crear un script específico para extraer la portada
                                set scriptContent to "tell application \"Music\"
                                    tell artwork 1 of current track
                                        set artData to raw data
                                        set fileRef to open for access POSIX file \"" & artworkPath & "\" with write permission
                                        set eof fileRef to 0
                                        write artData to fileRef
                                        close access fileRef
                                    end tell
                                end tell"
                                
                                -- Guardar el script temporalmente
                                set scriptPath to "/tmp/extract_artwork.scpt"
                                do shell script "cat > " & quoted form of scriptPath & " << 'EOF'
" & scriptContent & "
EOF"
                                
                                -- Ejecutar el script
                                do shell script "osascript " & quoted form of scriptPath & " || true"
                                
                                -- Verificar si el archivo existe y no está vacío
                                set checkCmd to "[ -s " & quoted form of artworkPath & " ] && echo 'OK' || echo 'FAIL'"
                                set checkResult to do shell script checkCmd
                                
                                if checkResult is "OK" then
                                    -- Verificar el tipo de archivo para confirmar que es una imagen
                                    set fileTypeCmd to "file -b " & quoted form of artworkPath
                                    set fileType to do shell script fileTypeCmd
                                    
                                    if fileType contains "image" or fileType contains "JPEG" or fileType contains "PNG" then
                                        return "TEMP_FILE:" & artworkPath
                                    else
                                        log "Archivo generado no es una imagen: " & fileType
                                    end if
                                else
                                    log "No se pudo extraer la portada (archivo vacío)"
                                end if
                            else
                                log "Esta pista no tiene portada"
                            end if
                        end if
                    on error errMsg
                        log "Error obteniendo portada: " & errMsg
                        return "ERROR:" & errMsg
                    end try
                end tell
                return ""
            end run
        "##;

/// Script text: spotify artwork.
pub const SPOTIFY_ARTWORK: &'static str = r##"
            on run
                set theData to ""
                tell application "Spotify"
                    try
                        if player state is playing then
                            set currentTrack to current track
                            
                            -- Intenta obtener la portada usando un método alternativo
                            tell application "System Events"
                                set processExists to exists process "Spotify"
                                if processExists then
                                    tell process "Spotify"
                                        -- Intentar capturar el elemento de la portada
                                        -- (Este enfoque puede no funcionar directamente)
                                        tell application "System Events" to keystroke "i" using {command down, shift down}
                                        delay 0.5
                                        -- Copiar al portapapeles
                                        tell application "System Events" to keystroke "c" using {command down}
                                        
                                        -- Volver a la vista normal
                                        tell application "System Events" to keystroke "i" using {command down, shift down}
                                        
                                        -- Contenido del portapapeles
                                        set theData to get the clipboard
                                    end tell
                                end if
                            end tell
                        end if
                    on error errMsg
                        log "Error obteniendo portada de Spotify: " & errMsg
                    end try
                end tell
                
                return theData
            end run
        "##;

/// Appends `b` to the string `a`.
fn joined(a: String, b: &str) -> (r: String)
    ensures
        r@ == a@ + b@,
{
    let mut a = a;
    a.append(b);
    a
}

/// The audio probe for the tab of `browser` whose URL contains `url`.
pub fn audio_probe_script(browser: &str, url: &str) -> (s: String)
    ensures
        s@ == AUDIO_PROBE_0@ + browser@ + AUDIO_PROBE_1@ + browser@ + AUDIO_PROBE_2@ + url@
            + AUDIO_PROBE_3@,
{
    let s = String::from_str(AUDIO_PROBE_0);
    let s = joined(s, browser);
    let s = joined(s, AUDIO_PROBE_1);
    let s = joined(s, browser);
    let s = joined(s, AUDIO_PROBE_2);
    let s = joined(s, url);
    joined(s, AUDIO_PROBE_3)
}

/// The check that `browser` still has a tab open at exactly `url`.
pub fn tab_open_script(browser: &str, url: &str) -> (s: String)
    ensures
        s@ == TAB_OPEN_0@ + browser@ + TAB_OPEN_1@ + browser@ + TAB_OPEN_2@ + url@ + TAB_OPEN_3@,
{
    let s = String::from_str(TAB_OPEN_0);
    let s = joined(s, browser);
    let s = joined(s, TAB_OPEN_1);
    let s = joined(s, browser);
    let s = joined(s, TAB_OPEN_2);
    let s = joined(s, url);
    joined(s, TAB_OPEN_3)
}

/// The listing of the potential music tabs of `browser`, one `title|url` per line.
pub fn tab_listing_script(browser: &str) -> (s: String)
    ensures
        s@ == TAB_LISTING_0@ + browser@ + TAB_LISTING_1@ + browser@ + TAB_LISTING_2@,
{
    let s = String::from_str(TAB_LISTING_0);
    let s = joined(s, browser);
    let s = joined(s, TAB_LISTING_1);
    let s = joined(s, browser);
    joined(s, TAB_LISTING_2)
}

/// The reply of a script as its callers read it: the trimmed output when the
/// script succeeded, and `false` when it failed.
pub open spec fn reply_text(success: bool, stdout: Seq<char>) -> Seq<char> {
    if success {
        trim(stdout)
    } else {
        "false"@
    }
}

/// Whether a script answered `true` (after trimming); a failed script did not.
pub fn replied_true(success: bool, stdout: &str) -> (r: bool)
    ensures
        r == (success && trim(stdout@) == "true"@),
{
    if !success {
        return false;
    }
    let out = chars_of(stdout);
    let t = trimmed(&out);
    same(&t, &chars_of("true"))
}

/// Whether a reply (after trimming) is exactly `expected`.
pub fn trimmed_is(reply: &str, expected: &str) -> (r: bool)
    ensures
        r == (trim(reply@) == expected@),
{
    let out = chars_of(reply);
    let t = trimmed(&out);
    same(&t, &chars_of(expected))
}

} // verus!

verus! {

/// What running a script gives: its trimmed output when it succeeded, else
/// an AppleScript error with its trimmed error output.
pub fn script_result(success: bool, stdout: &str, stderr: &str) -> (r: Result<String, PlayerError>)
    ensures
        success ==> (r matches Ok(out) && out@ == trim(stdout@)),
        !success ==> (r matches Err(PlayerError::AppleScript(msg)) && msg@ == trim(stderr@)),
{
    if success {
        Ok(string_of(&trimmed(&chars_of(stdout))))
    } else {
        Err(PlayerError::AppleScript(string_of(&trimmed(&chars_of(stderr)))))
    }
}


/// How a run of `osascript` ended.
#[derive(Debug)]
pub enum ScriptOutcome {
    /// The process could not be started; the message says why.
    SpawnFailed(String),
    /// The process ran: whether it exited successfully, and its output and
    /// error output as text.
    Exited { success: bool, stdout: String, stderr: String },
}

/// The result of a run, by views: `Ok` with the trimmed output of a successful
/// run, else `Err` with the message: why the process could not be started, or
/// its trimmed error output.
pub open spec fn outcome_result(o: ScriptOutcome) -> Result<Seq<char>, Seq<char>> {
    match o {
        ScriptOutcome::SpawnFailed(m) => Err(m@),
        ScriptOutcome::Exited { success, stdout, stderr } => if success {
            Ok(trim(stdout@))
        } else {
            Err(trim(stderr@))
        },
    }
}

/// Whether `r` is the result of a run that ended with `o`.
pub open spec fn result_of(o: ScriptOutcome, r: Result<String, PlayerError>) -> bool {
    match r {
        Ok(s) => outcome_result(o) == Ok::<Seq<char>, Seq<char>>(s@),
        Err(PlayerError::AppleScript(m)) => outcome_result(o) == Err::<Seq<char>, Seq<char>>(m@),
        Err(PlayerError::Json(_)) => false,
    }
}

/// The result of a run of a script, from how the run ended.
pub fn run_result(o: ScriptOutcome) -> (r: Result<String, PlayerError>)
    ensures
        result_of(o, r),
{
    match o {
        ScriptOutcome::SpawnFailed(m) => Err(PlayerError::AppleScript(m)),
        ScriptOutcome::Exited { success, stdout, stderr } => script_result(success, stdout.as_str(), stderr.as_str()),
    }
}

/// Two runs of a script that end the same way give the same result, whether
/// the script was run blocking or not: both hand how it ended to `run_result`.
pub proof fn law_same_outcome_same_result(
    o: ScriptOutcome,
    r1: Result<String, PlayerError>,
    r2: Result<String, PlayerError>,
)
    requires
        result_of(o, r1),
        result_of(o, r2),
    ensures
        match (r1, r2) {
            (Ok(a), Ok(b)) => a@ == b@,
            (Err(PlayerError::AppleScript(a)), Err(PlayerError::AppleScript(b))) => a@ == b@,
            _ => false,
        },
{
}

} // verus!
