//! Serving the stored cover images over HTTP.
use vstd::prelude::*;

use crate::fmt::{decimal, decimal_chars, hex2, push_hex2};
use crate::text::{chars_of, concat, same, string_of};

verus! {

/// An image as the image store holds it.
#[derive(Debug, Clone)]
pub struct StoredImage {
    pub content_type: String,
    pub data: Vec<u8>,
}

/// The answer to a request for an image.
#[derive(Debug)]
pub enum ImageReply {
    /// `200 OK` with this content type, these headers (in order) and this body.
    Image { content_type: String, headers: Vec<(String, String)>, body: Vec<u8> },
    /// `404 Not Found` with this message.
    NotFound(String),
    /// `500 Internal Server Error` with this message.
    ServerError(&'static str),
}

/// The message when the stored bytes are not an image.
pub const INVALID_IMAGE: &'static str = "Datos de imagen inválidos";

/// The message when the image store cannot be read.
pub const STORE_UNAVAILABLE: &'static str = "Error al acceder al almacén de imágenes";

/// The image served for a request: the one of the requested epoch, else the
/// latest one of the same id.
pub fn select_image(exact: Option<StoredImage>, latest: Option<StoredImage>) -> (r: Option<StoredImage>)
    ensures
        r == (if exact is Some { exact } else { latest }),
{
    match exact {
        Some(img) => Some(img),
        None => latest,
    }
}

/// Bytes that can be served as an image: more than four bytes that begin with
/// a JPEG or PNG signature.
pub open spec fn servable(d: Seq<u8>) -> bool {
    d.len() > 4 && ((d[0] == 0xFF && d[1] == 0xD8) || (d[0] == 0x89 && d[1] == 0x50 && d[2]
        == 0x4E && d[3] == 0x47))
}

/// The first four bytes in hexadecimal, separated by spaces.
pub open spec fn signature_text(d: Seq<u8>) -> Seq<char> {
    hex2(d[0]) + seq![' '] + hex2(d[1]) + seq![' '] + hex2(d[2]) + seq![' '] + hex2(d[3])
}

/// The view of a list of headers.
pub open spec fn headers_view(h: Seq<(String, String)>) -> Seq<(Seq<char>, Seq<char>)> {
    h.map_values(|p: (String, String)| (p.0@, p.1@))
}

/// The headers sent with an image.
pub open spec fn image_headers(id: usize, epoch: usize, img: StoredImage) -> Seq<(Seq<char>, Seq<char>)> {
    let base = seq![
        ("X-Image-Size"@, decimal(img.data@.len())),
        ("X-Image-ID"@, decimal(id as nat)),
        ("X-Image-Epoch"@, decimal(epoch as nat)),
        ("X-Image-Headers"@, signature_text(img.data@)),
    ];
    if img.content_type@ == "image/jpeg"@ {
        base.push(("Cache-Control"@, "public, max-age=3600"@))
    } else {
        base
    }
}

/// The message when no image exists for a request.
pub open spec fn not_found_text(id: usize, epoch: usize) -> Seq<char> {
    "Imagen id="@ + decimal(id as nat) + " epoch="@ + decimal(epoch as nat) + " no existe"@
}

fn decimal_string(n: usize) -> (s: String)
    ensures
        s@ == decimal(n as nat),
{
    string_of(&decimal_chars(n as u64))
}

fn header(name: &str, value: String) -> (h: (String, String))
    ensures
        h.0@ == name@,
        h.1 == value,
{
    (String::from_str(name), value)
}

/// The answer for a request of image `id` at `epoch`, given the image found.
pub fn image_reply(id: usize, epoch: usize, found: Option<StoredImage>) -> (r: ImageReply)
    ensures
        match found {
            None => r matches ImageReply::NotFound(m) && m@ == not_found_text(id, epoch),
            Some(img) => if servable(img.data@) {
                r matches ImageReply::Image { content_type, headers, body }
                    && content_type@ == img.content_type@
                    && headers_view(headers@) == image_headers(id, epoch, img)
                    && body@ == img.data@
            } else {
                r matches ImageReply::ServerError(m) && m == INVALID_IMAGE
            },
        },
{
    match found {
        None => {
            let a = concat(&chars_of("Imagen id="), &decimal_chars(id as u64));
            let b = concat(&a, &chars_of(" epoch="));
            let c = concat(&b, &decimal_chars(epoch as u64));
            let d = concat(&c, &chars_of(" no existe"));
            ImageReply::NotFound(string_of(&d))
        },
        Some(img) => {
            let data = &img.data;
            let valid = data.len() > 4 && ((data[0] == 0xFF && data[1] == 0xD8) || (data[0] == 0x89
                && data[1] == 0x50 && data[2] == 0x4E && data[3] == 0x47));
            if !valid {
                return ImageReply::ServerError(INVALID_IMAGE);
            }
            let mut sig: Vec<char> = Vec::new();
            push_hex2(&mut sig, data[0]);
            sig.push(' ');
            push_hex2(&mut sig, data[1]);
            sig.push(' ');
            push_hex2(&mut sig, data[2]);
            sig.push(' ');
            push_hex2(&mut sig, data[3]);
            assert(sig@ =~= signature_text(data@));
            let mut headers: Vec<(String, String)> = Vec::new();
            headers.push(header("X-Image-Size", decimal_string(data.len())));
            headers.push(header("X-Image-ID", decimal_string(id)));
            headers.push(header("X-Image-Epoch", decimal_string(epoch)));
            headers.push(header("X-Image-Headers", string_of(&sig)));
            let jpeg = same(&chars_of(img.content_type.as_str()), &chars_of("image/jpeg"));
            if jpeg {
                headers.push(header("Cache-Control", String::from_str("public, max-age=3600")));
            }
            assert(headers_view(headers@) =~= image_headers(id, epoch, img));
            ImageReply::Image { content_type: img.content_type, headers, body: img.data }
        },
    }
}

} // verus!
