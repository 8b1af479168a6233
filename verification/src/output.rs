//! From traced colours to the bytes of a picture.

use vstd::prelude::*;
use crate::arith::{fixed, product_of, Arith};
use crate::raster::{image_put_pixel, raster_pixels, raster_size, Raster};
use crate::scalar::Scalar;
use crate::texture::BYTE_MAX_BITS;
use crate::vector::Color;

verus! {

/// The frame holds a grid: not more than `u32::MAX` rows, none shorter than
/// the first, which sets the width.
pub open spec fn frame_shaped(frame: Seq<Vec<Color>>) -> bool {
    &&& frame.len() <= u32::MAX
    &&& frame.len() > 0 ==> frame[0]@.len() <= u32::MAX
    &&& forall|y: int| 0 <= y < frame.len() ==> (#[trigger] frame[y])@.len() >= frame[0]@.len()
}

/// The width of a frame: the length of its first row, 0 without one.
pub open spec fn frame_width(frame: Seq<Vec<Color>>) -> int {
    if frame.len() > 0 {
        frame[0]@.len() as int
    } else {
        0
    }
}

/// One channel as a byte: held to `[0, 1]`, scaled by 255 and rounded.
pub open spec fn channel_to_byte_spec<A: Arith>(ops: &A, c: Scalar) -> int {
    product_of(ops, c.unit_clamp_spec(), Scalar { bits: BYTE_MAX_BITS }).round_to_byte_spec()
}

/// A colour as three bytes, red first.
pub open spec fn color_to_rgb_spec<A: Arith>(ops: &A, color: Color) -> (int, int, int) {
    (
        channel_to_byte_spec(ops, color.x),
        channel_to_byte_spec(ops, color.y),
        channel_to_byte_spec(ops, color.z),
    )
}

/// One channel as a byte: held to `[0, 1]`, scaled by 255 and rounded.
fn channel_to_byte<A: Arith>(c: Scalar, ops: &A) -> (r: u8)
    ensures
        fixed(ops) ==> r == channel_to_byte_spec(ops, c),
{
    ops.product(c.unit_clamp(), Scalar::from_bits(BYTE_MAX_BITS)).round_to_byte()
}

/// A colour as three bytes, red first.
pub fn color_to_rgb<A: Arith>(color: Color, ops: &A) -> (r: (u8, u8, u8))
    ensures
        fixed(ops) ==> (r.0 as int, r.1 as int, r.2 as int) == color_to_rgb_spec(ops, color),
{
    (channel_to_byte(color.x, ops), channel_to_byte(color.y, ops), channel_to_byte(color.z, ops))
}

/// Whether no row of the frame is shorter than the first, and the counts
/// of rows and columns fit a `u32`.
pub fn is_frame(frame: &Vec<Vec<Color>>) -> (r: bool)
    ensures
        r == frame_shaped(frame@),
{
    if frame.len() > u32::MAX as usize {
        return false;
    }
    if frame.len() == 0 {
        return true;
    }
    let width = frame[0].len();
    if width > u32::MAX as usize {
        return false;
    }
    let mut y: usize = 0;
    while y < frame.len()
        invariant
            y <= frame@.len(),
            width == frame@[0]@.len(),
            forall|j: int| 0 <= j < y ==> (#[trigger] frame@[j])@.len() >= width,
        decreases frame@.len() - y,
    {
        if frame[y].len() < width {
            return false;
        }
        y += 1;
    }
    true
}

/// The bytes of `rgb` are those that `color` turns into.
pub open spec fn is_rgb_of<A: Arith>(ops: &A, color: Color, rgb: (u8, u8, u8)) -> bool {
    (rgb.0 as int, rgb.1 as int, rgb.2 as int) == color_to_rgb_spec(ops, color)
}

/// The picture of a frame: one pixel per colour, row by row; what a row
/// holds beyond the width is left out. Nothing where the picture's bytes
/// would not fit in memory.
pub fn frame_to_raster<A: Arith>(frame: &Vec<Vec<Color>>, ops: &A) -> (r: Option<Raster>)
    requires
        frame_shaped(frame@),
    ensures
        r is Some <==> 3 * frame_width(frame@) * frame@.len() <= usize::MAX,
        r matches Some(img) ==> raster_size(img) == (
            frame_width(frame@) as u32,
            frame@.len() as u32,
        ),
        fixed(ops) ==> (r matches Some(img) ==> forall|x: u32, y: u32|
            x < frame_width(frame@) && y < frame@.len() ==> is_rgb_of(
                ops,
                frame@[y as int]@[x as int],
                #[trigger] raster_pixels(img)[(x, y)],
            )),
{
    let height = frame.len() as u32;
    let width = if frame.len() > 0 {
        frame[0].len() as u32
    } else {
        0
    };
    match Raster::blank(width, height) {
        Some(blank) => {
            let mut img = blank;
            let mut y: u32 = 0;
            while y < height
                invariant
                    y <= height,
                    height == frame@.len(),
                    width == frame_width(frame@),
                    frame_shaped(frame@),
                    raster_size(img) == (width, height),
                    fixed(ops) ==> forall|i: u32, j: u32|
                        i < width && j < y ==> is_rgb_of(
                            ops,
                            frame@[j as int]@[i as int],
                            #[trigger] raster_pixels(img)[(i, j)],
                        ),
                decreases height - y,
            {
                let mut x: u32 = 0;
                while x < width
                    invariant
                        x <= width,
                        y < height,
                        height == frame@.len(),
                        width == frame_width(frame@),
                        frame_shaped(frame@),
                        raster_size(img) == (width, height),
                        fixed(ops) ==> forall|i: u32, j: u32|
                            i < width && (j < y || (j == y && i < x)) ==> is_rgb_of(
                                ops,
                                frame@[j as int]@[i as int],
                                #[trigger] raster_pixels(img)[(i, j)],
                            ),
                    decreases width - x,
                {
                    let rgb = color_to_rgb(frame[y as usize][x as usize], ops);
                    image_put_pixel(&mut img, x, y, rgb);
                    x += 1;
                }
                y += 1;
            }
            Some(img)
        },
        None => None,
    }
}

} // verus!
