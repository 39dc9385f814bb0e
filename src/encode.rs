//! Turning a frame into its transport form: PNG bytes, then padded base64 text.
use crate::frame::FrameBuffer;
use base64::Engine;
use image::ImageEncoder;
use vstd::prelude::*;

verus! {

#[verifier::external_type_specification]
#[verifier::external_body]
pub struct ExImageError(image::ImageError);

/// The PNG file that image's encoder writes for an RGBA raster, or `None` where it
/// reports an error.
pub uninterp spec fn png_rgba8(pixels: Seq<u8>, width: u32, height: u32) -> Option<Seq<u8>>;

/// The standard, padded base64 text of a byte sequence.
pub uninterp spec fn base64_standard(bytes: Seq<u8>) -> Seq<char>;

/// Length of padded base64 text: four characters for each started group of three bytes.
pub open spec fn base64_len(n: nat) -> nat {
    4 * ((n + 2) / 3)
}

/// Relies on image's `PngEncoder::write_image` with `Rgba8`: it writes a lossless PNG
/// of the raster into the buffer, and depends on its arguments alone.
#[verifier::external_body]
fn write_png(pixels: &Vec<u8>, width: u32, height: u32) -> (r: Result<Vec<u8>, image::ImageError>)
    requires
        pixels@.len() == 4 * width * height,
    ensures
        r is Ok <==> png_rgba8(pixels@, width, height) is Some,
        r matches Ok(bytes) ==> png_rgba8(pixels@, width, height) == Some(bytes@),
{
    let mut buffer = Vec::new();
    image::codecs::png::PngEncoder::new(&mut buffer).write_image(
        pixels,
        width,
        height,
        image::ExtendedColorType::Rgba8,
    )?;
    Ok(buffer)
}

/// Relies on base64's `STANDARD` engine `encode`: padded text over the standard
/// alphabet, four characters for each started group of three bytes. It panics only
/// where that length overflows `usize`, which `requires` leaves out.
#[verifier::external_body]
fn to_base64(bytes: &Vec<u8>) -> (r: String)
    requires
        bytes@.len() <= usize::MAX / 2,
    ensures
        r@ == base64_standard(bytes@),
        r@.len() == base64_len(bytes@.len()),
{
    base64::engine::general_purpose::STANDARD.encode(bytes)
}

/// Why a frame could not be encoded.
#[derive(Debug, Clone, Copy, PartialEq, Eq)]
pub enum EncodeError {
    /// The PNG encoder reported an error.
    Png,
    /// The PNG file is too large for its text form to be addressed.
    TooLarge,
}

/// The text form of a PNG file, or why there is none.
pub open spec fn payload_of_png(png: Option<Seq<u8>>) -> Result<Seq<char>, EncodeError> {
    match png {
        None => Err(EncodeError::Png),
        Some(bytes) => if bytes.len() <= usize::MAX / 2 {
            Ok(base64_standard(bytes))
        } else {
            Err(EncodeError::TooLarge)
        },
    }
}

/// What encoding a raster yields: base64 of its PNG file.
pub open spec fn encoded(raster: (u32, u32, Seq<u8>)) -> Result<Seq<char>, EncodeError> {
    payload_of_png(png_rgba8(raster.2, raster.0, raster.1))
}

/// The text form of an encoder's result.
pub fn payload_from_png(png: Result<Vec<u8>, image::ImageError>) -> (r: Result<String, EncodeError>)
    ensures
        match png {
            Err(_) => r == Err::<String, EncodeError>(EncodeError::Png),
            Ok(bytes) => match payload_of_png(Some(bytes@)) {
                Ok(text) => r matches Ok(s) && s@ == text,
                Err(e) => r == Err::<String, EncodeError>(e),
            },
        },
{
    match png {
        Err(_) => Err(EncodeError::Png),
        Ok(bytes) => {
            if bytes.len() <= usize::MAX / 2 {
                Ok(to_base64(&bytes))
            } else {
                Err(EncodeError::TooLarge)
            }
        },
    }
}

/// Encodes a frame as PNG and then as padded base64 text.
pub fn encode_frame(frame: &FrameBuffer) -> (r: Result<String, EncodeError>)
    ensures
        match encoded((frame.spec_width(), frame.spec_height(), frame.spec_pixels())) {
            Ok(text) => r matches Ok(s) && s@ == text,
            Err(e) => r == Err::<String, EncodeError>(e),
        },
{
    frame.check_valid();
    let png = write_png(frame.pixels(), frame.width(), frame.height());
    payload_from_png(png)
}

} // verus!
