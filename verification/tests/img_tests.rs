use current_song::img::{image_reply, select_image, ImageReply, StoredImage, INVALID_IMAGE};

fn img(ct: &str, data: Vec<u8>) -> StoredImage {
    StoredImage { content_type: ct.to_string(), data }
}

fn h(a: &str, b: &str) -> (String, String) {
    (a.to_string(), b.to_string())
}

#[test]
fn missing_image_is_not_found() {
    match image_reply(1, 2, None) {
        ImageReply::NotFound(m) => assert_eq!(m, "Imagen id=1 epoch=2 no existe"),
        other => panic!("unexpected {:?}", other),
    }
}

#[test]
fn jpeg_is_served_with_headers_and_cache() {
    match image_reply(7, 42, Some(img("image/jpeg", vec![0xFF, 0xD8, 0x00, 0x0A, 0x02]))) {
        ImageReply::Image { content_type, headers, body } => {
            assert_eq!(content_type, "image/jpeg");
            assert_eq!(
                headers,
                vec![
                    h("X-Image-Size", "5"),
                    h("X-Image-ID", "7"),
                    h("X-Image-Epoch", "42"),
                    h("X-Image-Headers", "FF D8 00 0A"),
                    h("Cache-Control", "public, max-age=3600"),
                ]
            );
            assert_eq!(body, vec![0xFF, 0xD8, 0x00, 0x0A, 0x02]);
        }
        other => panic!("unexpected {:?}", other),
    }
}

#[test]
fn png_is_served_without_cache() {
    match image_reply(0, 1234567, Some(img("image/png", vec![0x89, 0x50, 0x4E, 0x47, 0x0D, 0x0A]))) {
        ImageReply::Image { headers, .. } => {
            assert_eq!(headers.len(), 4);
            assert_eq!(headers[0], h("X-Image-Size", "6"));
            assert_eq!(headers[2], h("X-Image-Epoch", "1234567"));
            assert_eq!(headers[3], h("X-Image-Headers", "89 50 4E 47"));
        }
        other => panic!("unexpected {:?}", other),
    }
}

#[test]
fn invalid_bytes_are_an_error() {
    assert!(matches!(image_reply(1, 1, Some(img("image/jpeg", vec![0xFF, 0xD8, 0, 0]))), ImageReply::ServerError(m) if m == INVALID_IMAGE));
    assert!(matches!(image_reply(1, 1, Some(img("image/jpeg", vec![1, 2, 3, 4, 5]))), ImageReply::ServerError(_)));
}

#[test]
fn latest_image_stands_in_for_missing_epoch() {
    let a = img("image/png", vec![1]);
    let b = img("image/jpeg", vec![2]);
    assert_eq!(select_image(Some(a.clone()), Some(b.clone())).unwrap().data, vec![1]);
    assert_eq!(select_image(None, Some(b.clone())).unwrap().data, vec![2]);
    assert!(select_image(None, None).is_none());
}
