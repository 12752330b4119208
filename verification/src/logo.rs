//! The brand logo: its image bytes decoded to 8-bit RGBA pixels with the
//! `image` crate, ready to be uploaded as a texture.

use vstd::prelude::*;

verus! {

/// Decodes image bytes to 8-bit RGBA with `image::load_from_memory` and
/// `DynamicImage::to_rgba8`, handing back the width, the height and the
/// pixel bytes, or the error's text.
///
/// Which decoder reads the bytes is chosen from tables that any code in the
/// process may extend, so nothing ties the outcome to the bytes alone. What
/// holds of every image the crate returns is stated: its buffer holds at
/// least four bytes for each of its `width * height` pixels (the crate
/// builds no image whose buffer is shorter). Nothing is stated of when
/// decoding succeeds, of the pixel values, or of the error's text.
#[verifier::external_body]
fn decode_rgba8(bytes: &[u8]) -> (r: Result<(u32, u32, Vec<u8>), String>)
    ensures
        r matches Ok((width, height, pixels)) ==> 4 * width * height <= pixels@.len(),
{
    match image::load_from_memory(bytes) {
        Ok(decoded) => {
            let rgba = decoded.to_rgba8();
            Ok((rgba.width(), rgba.height(), rgba.into_raw()))
        },
        Err(err) => Err(err.to_string()),
    }
}

/// A decoded logo: its size and its RGBA pixel bytes, row by row.
#[derive(Clone, Debug)]
pub struct LogoImage {
    pub width: u32,
    pub height: u32,
    pub pixels: Vec<u8>,
}

/// The prefix of the error shown when the logo does not decode.
pub open spec fn logo_error_prefix() -> Seq<char> {
    "failed to decode the IgraLabs logo: "@
}

/// The logo from the outcome of decoding: the decoded image, or the
/// decoder's error behind a sentence that names the logo.
pub fn logo_from_decoded(decoded: Result<(u32, u32, Vec<u8>), String>) -> (r: Result<
    LogoImage,
    String,
>)
    ensures
        match decoded {
            Ok((width, height, pixels)) => r matches Ok(logo) && logo.width == width && logo.height
                == height && logo.pixels@ == pixels@,
            Err(e) => r matches Err(msg) && msg@ == logo_error_prefix() + e@,
        },
{
    match decoded {
        Ok((width, height, pixels)) => Ok(LogoImage { width, height, pixels }),
        Err(e) => {
            let mut msg = String::new();
            msg.append("failed to decode the IgraLabs logo: ");
            msg.append(e.as_str());
            Err(msg)
        },
    }
}

/// Decodes the logo's image bytes. Whatever the decoder makes of them, a
/// decoded logo has room for four bytes per pixel, and a failure is
/// reported behind the sentence that names the logo.
pub fn decode_logo(bytes: &[u8]) -> (r: Result<LogoImage, String>)
    ensures
        match r {
            Ok(logo) => 4 * logo.width * logo.height <= logo.pixels@.len(),
            Err(msg) => exists|e: Seq<char>| msg@ == logo_error_prefix() + e,
        },
{
    let decoded = decode_rgba8(bytes);
    let ghost outcome = decoded;
    let r = logo_from_decoded(decoded);
    proof {
        if let Err(e) = outcome {
            assert(r matches Err(msg) && msg@ == logo_error_prefix() + e@);
        }
    }
    r
}

} // verus!
