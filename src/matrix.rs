use vstd::prelude::*;

use crate::error::FaceError;

verus! {

#[verifier::external_type_specification]
#[verifier::external_body]
pub struct ExImageError(image::ImageError);

/// The RGB image, as width, height and row-major 8-bit R, G, B samples, that
/// the image decoder makes of an encoded buffer, or `None` where it cannot.
pub uninterp spec fn rgb8_decoding(bytes: Seq<u8>) -> Option<(u32, u32, Seq<u8>)>;

/// Relies on image::guess_format (the format, from the built-in table of
/// signatures), image::load_from_memory_with_format (the built-in decoder for
/// that format) and DynamicImage::to_rgb8 (conversion to 3-channel RGB, alpha
/// dropped). None of them consults the registries of run-time hooks, so the
/// outcome is a function of the bytes alone.
#[verifier::external_body]
fn load_rgb8(bytes: &[u8]) -> (r: Result<(u32, u32, Vec<u8>), image::ImageError>)
    ensures
        r is Ok <==> rgb8_decoding(bytes@) is Some,
        r matches Ok(t) ==> rgb8_decoding(bytes@) == Some((t.0, t.1, t.2@)),
{
    let format = match image::guess_format(bytes) {
        Ok(format) => format,
        Err(e) => return Err(e),
    };
    match image::load_from_memory_with_format(bytes, format) {
        Ok(img) => {
            let rgb = img.to_rgb8();
            Ok((rgb.width(), rgb.height(), rgb.into_raw()))
        },
        Err(e) => Err(e),
    }
}

/// A decoded image: `width` by `height` RGB pixels, row by row, three bytes each.
/// It never changes once made.
pub struct PixelMatrix {
    width: u32,
    height: u32,
    pixels: Vec<u8>,
}

impl View for PixelMatrix {
    type V = (u32, u32, Seq<u8>);

    closed spec fn view(&self) -> (u32, u32, Seq<u8>) {
        (self.width, self.height, self.pixels@)
    }
}

/// A width, a height and samples that make a non-empty RGB matrix.
pub open spec fn is_rgb_matrix(m: (u32, u32, Seq<u8>)) -> bool {
    m.0 > 0 && m.1 > 0 && m.2.len() == 3 * m.0 * m.1
}

/// The matrix made of a decoder's outcome: only a non-empty, consistent one.
pub open spec fn checked_rgb8(d: Option<(u32, u32, Seq<u8>)>) -> Option<(u32, u32, Seq<u8>)> {
    match d {
        Some(m) => if is_rgb_matrix(m) { Some(m) } else { None },
        None => None,
    }
}

/// The matrix that decoding `bytes` gives; `None` for an empty buffer.
pub open spec fn decoded(bytes: Seq<u8>) -> Option<(u32, u32, Seq<u8>)> {
    if bytes.len() == 0 {
        None
    } else {
        checked_rgb8(rgb8_decoding(bytes))
    }
}

pub open spec fn rgb8_view(d: Option<(u32, u32, Vec<u8>)>) -> Option<(u32, u32, Seq<u8>)> {
    match d {
        Some(t) => Some((t.0, t.1, t.2@)),
        None => None,
    }
}

impl PixelMatrix {
    pub open spec fn wf(&self) -> bool {
        is_rgb_matrix(self@)
    }

    pub fn width(&self) -> (r: u32)
        ensures
            r == self@.0,
    {
        self.width
    }

    pub fn height(&self) -> (r: u32)
        ensures
            r == self@.1,
    {
        self.height
    }

    /// The samples, row by row, R, G and B for each pixel.
    pub fn pixels(&self) -> (r: &Vec<u8>)
        ensures
            r@ == self@.2,
    {
        &self.pixels
    }

    /// Builds a matrix from a decoder's outcome: `None`, a zero-sized image or
    /// a sample buffer of the wrong length is a decode error.
    pub fn from_rgb8(decoded: Option<(u32, u32, Vec<u8>)>) -> (r: Result<PixelMatrix, FaceError>)
        ensures
            r is Ok <==> checked_rgb8(rgb8_view(decoded)) is Some,
            r matches Ok(m) ==> checked_rgb8(rgb8_view(decoded)) == Some(m@) && m.wf(),
            r matches Err(e) ==> e == FaceError::Decode,
    {
        match decoded {
            None => Err(FaceError::Decode),
            Some((width, height, pixels)) => {
                if width == 0 || height == 0 {
                    return Err(FaceError::Decode);
                }
                let w = width as u128;
                let h = height as u128;
                assert(w * h <= 0xffff_ffff_ffff_ffff_ffff_ffff) by (nonlinear_arith)
                    requires w <= 0xffff_ffff, h <= 0xffff_ffff;
                let expected: u128 = 3 * (w * h);
                assert(expected == 3 * width * height) by (nonlinear_arith)
                    requires expected == 3 * (w * h), w == width, h == height;
                if pixels.len() as u128 != expected {
                    return Err(FaceError::Decode);
                }
                Ok(PixelMatrix { width, height, pixels })
            },
        }
    }
}

/// Decodes an encoded image buffer (JPEG, PNG, ...) into an RGB pixel matrix.
/// An empty buffer, one the decoder cannot read, and one that would give a
/// matrix without pixels are all decode errors.
pub fn decode(bytes: &[u8]) -> (r: Result<PixelMatrix, FaceError>)
    ensures
        r is Ok <==> decoded(bytes@) is Some,
        r matches Ok(m) ==> decoded(bytes@) == Some(m@) && m.wf(),
        r matches Err(e) ==> e == FaceError::Decode,
        bytes@.len() == 0 ==> r == Err::<PixelMatrix, FaceError>(FaceError::Decode),
{
    if bytes.len() == 0 {
        return Err(FaceError::Decode);
    }
    match load_rgb8(bytes) {
        Ok(t) => PixelMatrix::from_rgb8(Some(t)),
        Err(_) => PixelMatrix::from_rgb8(None),
    }
}

} // verus!
