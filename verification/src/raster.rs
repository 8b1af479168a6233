//! Raster images of 8-bit RGB pixels, held by the `image` crate.

use vstd::prelude::*;

verus! {

/// An image of the `image` crate, an `image::RgbImage`. Of what it holds
/// the proofs know its size and its pixels, under the two names below, and
/// of those only what the functions of this module say.
#[verifier::external_body]
pub struct Raster {
    inner: image::RgbImage,
}

/// Width and height of an image, in pixels.
pub uninterp spec fn raster_size(img: Raster) -> (u32, u32);

/// The pixels of an image: red, green and blue at each `(x, y)` inside it,
/// `x` counting columns from the left and `y` rows from the top.
pub uninterp spec fn raster_pixels(img: Raster) -> Map<(u32, u32), (u8, u8, u8)>;

/// The pixel at `(x, y)` of an image of width `width` that is laid out in
/// `bytes` row by row, three bytes to the pixel.
pub open spec fn packed_pixel(bytes: Seq<u8>, width: u32, x: u32, y: u32) -> (u8, u8, u8) {
    let at = 3 * (y * width + x);
    (bytes[at], bytes[at + 1], bytes[at + 2])
}

/// The pixels of `img` are those that `bytes` holds in packed order.
pub open spec fn packed_in(img: Raster, bytes: Seq<u8>) -> bool {
    forall|x: u32, y: u32|
        x < raster_size(img).0 && y < raster_size(img).1 ==> #[trigger] raster_pixels(img)[(x, y)]
            == packed_pixel(bytes, raster_size(img).0, x, y)
}

/// `ImageBuffer::from_raw`: an image over `bytes` where they are enough for
/// `width * height` pixels of three bytes, nothing where they are not. The
/// image has that width and height, and its pixels are the bytes in packed
/// order.
#[verifier::external_body]
fn image_from_raw(width: u32, height: u32, bytes: Vec<u8>) -> (r: Option<Raster>)
    ensures
        r is Some <==> 3 * width * height <= bytes@.len(),
        r matches Some(img) ==> raster_size(img) == (width, height) && packed_in(img, bytes@),
{
    match image::RgbImage::from_raw(width, height, bytes) {
        Some(inner) => Some(Raster { inner }),
        None => None,
    }
}

/// `ImageBuffer::into_raw`: the bytes under the image, which are enough for
/// its pixels and hold them in packed order.
#[verifier::external_body]
fn image_into_raw(img: Raster) -> (bytes: Vec<u8>)
    ensures
        3 * raster_size(img).0 * raster_size(img).1 <= bytes@.len(),
        packed_in(img, bytes@),
{
    img.inner.into_raw()
}

/// `ImageBuffer::dimensions`: width and height.
#[verifier::external_body]
pub(crate) fn image_dimensions(img: &Raster) -> (r: (u32, u32))
    ensures
        r == raster_size(*img),
{
    img.inner.dimensions()
}

/// `ImageBuffer::get_pixel`, which panics outside the image: the channels
/// of the pixel at `(x, y)`.
#[verifier::external_body]
pub(crate) fn image_get_pixel(img: &Raster, x: u32, y: u32) -> (r: (u8, u8, u8))
    requires
        x < raster_size(*img).0,
        y < raster_size(*img).1,
    ensures
        r == raster_pixels(*img)[(x, y)],
{
    let p = img.inner.get_pixel(x, y);
    (p.0[0], p.0[1], p.0[2])
}

/// `ImageBuffer::new`, which panics where the byte count does not fit a
/// `usize`: an image of the given size whose pixels are all (0, 0, 0).
#[verifier::external_body]
fn image_new(width: u32, height: u32) -> (r: Raster)
    requires
        3 * width * height <= usize::MAX,
    ensures
        raster_size(r) == (width, height),
        forall|x: u32, y: u32|
            x < width && y < height ==> #[trigger] raster_pixels(r)[(x, y)] == (0u8, 0u8, 0u8),
{
    Raster { inner: image::RgbImage::new(width, height) }
}

/// `ImageBuffer::put_pixel`, which panics outside the image: the pixel at
/// `(x, y)` becomes `rgb`, the others and the size stay.
#[verifier::external_body]
pub(crate) fn image_put_pixel(img: &mut Raster, x: u32, y: u32, rgb: (u8, u8, u8))
    requires
        x < raster_size(*old(img)).0,
        y < raster_size(*old(img)).1,
    ensures
        raster_size(*final(img)) == raster_size(*old(img)),
        raster_pixels(*final(img)) == raster_pixels(*old(img)).insert((x, y), rgb),
{
    img.inner.put_pixel(x, y, image::Rgb([rgb.0, rgb.1, rgb.2]));
}

impl Raster {
    /// The image of `width` by `height` pixels that `bytes` holds row by
    /// row, three bytes to the pixel; nothing where the bytes are too few.
    pub fn from_raw(width: u32, height: u32, bytes: Vec<u8>) -> (r: Option<Raster>)
        ensures
            r is Some <==> 3 * width * height <= bytes@.len(),
            r matches Some(img) ==> raster_size(img) == (width, height) && packed_in(img, bytes@),
    {
        image_from_raw(width, height, bytes)
    }

    /// The bytes of the image, row by row, three to the pixel.
    pub fn into_raw(self) -> (bytes: Vec<u8>)
        ensures
            3 * raster_size(self).0 * raster_size(self).1 <= bytes@.len(),
            packed_in(self, bytes@),
    {
        image_into_raw(self)
    }

    pub fn dimensions(&self) -> (r: (u32, u32))
        ensures
            r == raster_size(*self),
    {
        image_dimensions(self)
    }

    /// A black image, or nothing where its bytes would not fit in memory.
    pub fn blank(width: u32, height: u32) -> (r: Option<Raster>)
        ensures
            r is Some <==> 3 * width * height <= usize::MAX,
            r matches Some(img) ==> raster_size(img) == (width, height) && forall|x: u32, y: u32|
                x < width && y < height ==> #[trigger] raster_pixels(img)[(x, y)] == (
                    0u8,
                    0u8,
                    0u8,
                ),
    {
        assert(0 <= width * height <= 0xffff_ffff * 0xffff_ffff) by (nonlinear_arith)
            requires
                0 <= width <= 0xffff_ffff,
                0 <= height <= 0xffff_ffff,
        ;
        let area: u64 = (width as u64) * (height as u64);
        assert(3 * width * height == 3 * area) by (nonlinear_arith)
            requires
                area == width * height,
        ;
        if area <= (usize::MAX / 3) as u64 {
            Some(image_new(width, height))
        } else {
            None
        }
    }
}

} // verus!
