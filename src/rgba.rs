use vstd::prelude::*;

use crate::error::PagerError;
use crate::placement::Position;

verus! {

/// What the image codec decodes `bytes` into: width, height and row-major
/// RGBA bytes, or nothing where the bytes hold no image it can read.
pub uninterp spec fn decoded_rgba(bytes: Seq<u8>) -> Option<(u32, u32, Seq<u8>)>;

#[verifier::external_type_specification]
#[verifier::external_body]
pub struct ExImageError(image::ImageError);

/// Relies on image::load_from_memory, which guesses the format from the bytes
/// and decodes them, and on DynamicImage::to_rgba8, which converts the result
/// to 8-bit RGBA with exactly four bytes per pixel, row-major and unpadded.
#[verifier::external_body]
fn decode_rgba(bytes: &[u8]) -> (r: Result<(u32, u32, Vec<u8>), image::ImageError>)
    ensures
        r matches Ok(t) ==> decoded_rgba(bytes@) == Some((t.0, t.1, t.2@)) && t.2@.len() == 4
            * t.0 * t.1,
        r is Err ==> decoded_rgba(bytes@) is None,
{
    let rgba = image::load_from_memory(bytes)?.to_rgba8();
    let (width, height) = rgba.dimensions();
    Ok((width, height, rgba.into_raw()))
}

/// A decoded image: row-major RGBA bytes, four per pixel, no padding.
pub struct ImageBuffer {
    width: u32,
    height: u32,
    pixels: Vec<u8>,
}

/// The byte count of an unpadded RGBA image of the given size.
pub open spec fn rgba_len(width: int, height: int) -> int {
    4 * width * height
}

impl View for ImageBuffer {
    /// Width, height and pixel bytes.
    type V = (u32, u32, Seq<u8>);

    closed spec fn view(&self) -> (u32, u32, Seq<u8>) {
        (self.width, self.height, self.pixels@)
    }
}

impl ImageBuffer {
    #[verifier::type_invariant]
    spec fn well_sized(self) -> bool {
        self.pixels@.len() == rgba_len(self.width as int, self.height as int)
    }

    /// An image of the given size over `pixels`, where the byte count fits it.
    pub fn new(width: u32, height: u32, pixels: Vec<u8>) -> (r: Option<ImageBuffer>)
        ensures
            r is Some <==> pixels@.len() == rgba_len(width as int, height as int),
            r matches Some(i) ==> i@ == (width, height, pixels@),
    {
        let len = pixels.len();
        assert(width * height <= u32::MAX * u32::MAX) by (nonlinear_arith)
            requires
                width <= u32::MAX,
                height <= u32::MAX,
        ;
        let area = width as u64 * height as u64;
        assert(rgba_len(width as int, height as int) == 4 * area) by (nonlinear_arith)
            requires
                area == width * height,
        ;
        assert(len == rgba_len(width as int, height as int) <==> (len % 4 == 0 && len / 4 == area));
        if len % 4 == 0 && (len / 4) as u64 == area {
            Some(ImageBuffer { width, height, pixels })
        } else {
            None
        }
    }

    pub fn width(&self) -> (r: u32)
        ensures
            r == self@.0,
    {
        self.width
    }

    pub fn height(&self) -> (r: u32)
        ensures
            r == self@.1,
    {
        self.height
    }

    pub fn pixels(&self) -> (r: &[u8])
        ensures
            r@ == self@.2,
            r@.len() == rgba_len(self@.0 as int, self@.1 as int),
    {
        proof {
            use_type_invariant(self);
        }
        self.pixels.as_slice()
    }
}

/// Decodes the encoded image `data` into RGBA; a failure names the slot the
/// image was meant for.
pub fn to_rgba(data: &[u8], position: Position) -> (r: Result<ImageBuffer, PagerError>)
    ensures
        match decoded_rgba(data@) {
            Some(v) => r matches Ok(i) && i@ == v,
            None => r == Err::<ImageBuffer, PagerError>(PagerError::Decode(position)),
        },
{
    match decode_rgba(data) {
        Ok((width, height, pixels)) => match ImageBuffer::new(width, height, pixels) {
            Some(image) => Ok(image),
            None => Err(PagerError::Decode(position)),
        },
        Err(_) => Err(PagerError::Decode(position)),
    }
}

} // verus!
