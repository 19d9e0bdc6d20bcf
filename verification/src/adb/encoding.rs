//! Images and base64, by the crates `image` and `base64`.

use vstd::prelude::*;

verus! {

/// The base64 text of `bytes`, in the standard alphabet with padding.
pub uninterp spec fn base64_standard(bytes: Seq<u8>) -> Seq<char>;

/// The largest number of bytes whose base64 text, four characters for
/// every three bytes or part of them, is no longer than a vector can be.
pub open spec fn base64_limit() -> int {
    isize::MAX / 4 * 3
}

/// Calls `encode` of base64's `STANDARD` engine. The call panics where the
/// text would be longer than a vector can be, which is left out. The result
/// is a function of the bytes alone.
#[verifier::external_body]
pub(crate) fn base64_encode(bytes: &[u8]) -> (r: String)
    requires
        bytes@.len() <= base64_limit(),
    ensures
        r@ == base64_standard(bytes@),
{
    base64::Engine::encode(&base64::engine::general_purpose::STANDARD, bytes)
}

/// Whether so many bytes can be written in base64.
pub fn fits_base64(len: usize) -> (r: bool)
    ensures
        r == (len <= base64_limit()),
{
    len <= isize::MAX as usize / 4 * 3
}

/// The bytes of the PNG that `image` writes for a black picture of `width`
/// by `height` pixels; what was written before the failure where writing
/// fails.
pub uninterp spec fn black_png_bytes(width: u32, height: u32) -> Seq<u8>;

/// Makes a picture of zeros with `RgbImage::new` and writes it out as PNG
/// with `DynamicImage::write_to`. Making the picture panics where its
/// buffer does not fit into a vector. The result is a function of the two
/// numbers alone.
#[verifier::external_body]
pub(crate) fn black_png(width: u32, height: u32) -> (r: Vec<u8>)
    requires
        width * height * 3 <= isize::MAX,
    ensures
        r@ == black_png_bytes(width, height),
{
    let picture = image::DynamicImage::ImageRgb8(image::RgbImage::new(width, height));
    let mut buffer = std::io::Cursor::new(Vec::new());
    let _ = picture.write_to(&mut buffer, image::ImageFormat::Png);
    buffer.into_inner()
}

/// Calls `image::load_from_memory` and reads the picture's width and
/// height; none where `image` reads no picture from the bytes. Which
/// formats `image` knows can be changed by the process it runs in, so
/// nothing is claimed of the result.
#[verifier::external_body]
pub(crate) fn read_picture_size(bytes: &[u8]) -> (r: Option<(u32, u32)>) {
    match image::load_from_memory(bytes) {
        Ok(picture) => Some((picture.width(), picture.height())),
        Err(_) => None,
    }
}

} // verus!
