use kaspawallet_egui::logo::{decode_logo, logo_from_decoded};
use std::io::Cursor;

fn png_bytes() -> Vec<u8> {
    let mut img = image::RgbaImage::new(2, 1);
    img.put_pixel(0, 0, image::Rgba([10, 20, 30, 255]));
    img.put_pixel(1, 0, image::Rgba([40, 50, 60, 128]));
    let mut out = Cursor::new(Vec::new());
    img.write_to(&mut out, image::ImageFormat::Png).unwrap();
    out.into_inner()
}

#[test]
fn png_logo_decodes_to_rgba_pixels() {
    let bytes = png_bytes();
    let logo = decode_logo(&bytes).unwrap();
    assert_eq!((logo.width, logo.height), (2, 1));
    assert_eq!(logo.pixels, vec![10, 20, 30, 255, 40, 50, 60, 128]);
    assert_ne!(logo.pixels, bytes);
}

#[test]
fn undecodable_logo_is_reported() {
    let err = decode_logo(b"not an image").unwrap_err();
    assert!(err.starts_with("failed to decode the IgraLabs logo: "));
    assert!(err.len() > "failed to decode the IgraLabs logo: ".len());
}

#[test]
fn logo_from_decoded_outcomes() {
    let logo = logo_from_decoded(Ok((1, 1, vec![1, 2, 3, 4]))).unwrap();
    assert_eq!((logo.width, logo.height, logo.pixels), (1, 1, vec![1, 2, 3, 4]));
    assert_eq!(
        logo_from_decoded(Err("bad header".into())).unwrap_err(),
        "failed to decode the IgraLabs logo: bad header"
    );
}
