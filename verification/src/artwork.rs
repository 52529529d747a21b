//! Reading the artwork that the players hand out.
use vstd::prelude::*;

use crate::player::PlayerError;
use crate::text::{begins_with, chars_of, string_of, trimmed_start_matches, starts_with, trim_start_matches};

verus! {

/// Whether the bytes begin with a JPEG (`FF D8`) or PNG (`89 50 4E 47`)
/// signature; fewer than four bytes never do.
pub open spec fn is_image(d: Seq<u8>) -> bool {
    d.len() >= 4 && ((d[0] == 0xFF && d[1] == 0xD8) || (d[0] == 0x89 && d[1] == 0x50 && d[2]
        == 0x4E && d[3] == 0x47))
}

/// Whether the bytes look like a JPEG or PNG image.
pub fn looks_like_image(d: &[u8]) -> (r: bool)
    ensures
        r == is_image(d@),
{
    d.len() >= 4 && ((d[0] == 0xFF && d[1] == 0xD8) || (d[0] == 0x89 && d[1] == 0x50 && d[2]
        == 0x4E && d[3] == 0x47))
}

/// The UTF-8 bytes of a string.
pub fn utf8_bytes(s: &String) -> (b: Vec<u8>)
    ensures
        b@ == vstd::utf8::encode_utf8(s@),
{
    vstd::slice::slice_to_vec(s.as_str().as_bytes())
}

/// What the Music artwork script's reply leads to.
#[derive(Debug)]
pub enum MusicArtwork {
    /// The artwork was written to this file: read it and hand the bytes to
    /// `music_artwork_file`.
    ReadFile(String),
    /// The artwork (or that there is none).
    Ready(Option<Vec<u8>>),
}

/// Reads the reply of the Music artwork script: a file to read after the
/// `TEMP_FILE:` marker; nothing after `ERROR:`, for an empty reply, or when the
/// script failed; otherwise the reply itself, if its bytes are an image.
pub fn music_artwork_reply(reply: Result<String, PlayerError>) -> (r: MusicArtwork)
    ensures
        match reply {
            Ok(out) => if starts_with(out@, "TEMP_FILE:"@) {
                r matches MusicArtwork::ReadFile(path) && path@ == trim_start_matches(out@, "TEMP_FILE:"@)
            } else if starts_with(out@, "ERROR:"@) || out@.len() == 0 {
                r matches MusicArtwork::Ready(None)
            } else if is_image(vstd::utf8::encode_utf8(out@)) {
                r matches MusicArtwork::Ready(Some(b)) && b@ == vstd::utf8::encode_utf8(out@)
            } else {
                r matches MusicArtwork::Ready(None)
            },
            Err(_) => r matches MusicArtwork::Ready(None),
        },
{
    match reply {
        Ok(out) => {
            let c = chars_of(out.as_str());
            let marker = chars_of("TEMP_FILE:");
            proof {
                reveal_strlit("TEMP_FILE:");
            }
            if begins_with(&c, &marker) {
                let path = trimmed_start_matches(&c, &marker);
                MusicArtwork::ReadFile(string_of(&path))
            } else if begins_with(&c, &chars_of("ERROR:")) || c.len() == 0 {
                MusicArtwork::Ready(None)
            } else {
                let bytes = utf8_bytes(&out);
                if looks_like_image(&bytes) {
                    MusicArtwork::Ready(Some(bytes))
                } else {
                    MusicArtwork::Ready(None)
                }
            }
        },
        Err(_) => MusicArtwork::Ready(None),
    }
}

/// The Music artwork read from its file (`None`: the file could not be read):
/// kept only when it is a JPEG or PNG image.
pub fn music_artwork_file(read: Option<Vec<u8>>) -> (r: Option<Vec<u8>>)
    ensures
        match read {
            Some(d) => if is_image(d@) {
                r matches Some(b) && b@ == d@
            } else {
                r is None
            },
            None => r is None,
        },
{
    match read {
        Some(d) => {
            if looks_like_image(&d) {
                Some(d)
            } else {
                None
            }
        },
        None => None,
    }
}

/// Reads the reply of the Spotify artwork script: its bytes, unless it is
/// empty or the script failed.
pub fn spotify_artwork_reply(reply: Result<String, PlayerError>) -> (r: Option<Vec<u8>>)
    ensures
        match reply {
            Ok(out) => if out@.len() == 0 {
                r is None
            } else {
                r matches Some(b) && b@ == vstd::utf8::encode_utf8(out@)
            },
            Err(_) => r is None,
        },
{
    match reply {
        Ok(out) => {
            if out.as_str().is_empty() {
                None
            } else {
                Some(utf8_bytes(&out))
            }
        },
        Err(_) => None,
    }
}

} // verus!
