//! Textures: a grid of colours, looked up by surface coordinates.

use vstd::prelude::*;
use crate::arith::{fixed, from_count_of, product_of, quotient_of, Arith};
use crate::raster::{image_dimensions, image_get_pixel, raster_pixels, raster_size, Raster};
use crate::scalar::Scalar;
use crate::vector::{Color, Vec3};

verus! {

/// 255.0
pub const BYTE_MAX_BITS: u32 = 0x437f_0000;

/// `data` holds `height` rows of `width` colours each, the top row first.
#[derive(Clone, Debug)]
pub struct Texture {
    pub width: u32,
    pub height: u32,
    pub data: Vec<Vec<Color>>,
}

impl Texture {
    /// `data` has the shape that `width` and `height` give.
    pub open spec fn shaped(&self) -> bool {
        &&& self.data@.len() == self.height
        &&& forall|y: int| 0 <= y < self.data@.len() ==> (#[trigger] self.data@[y])@.len() == self.width
    }

    /// The grid is not empty and `data` has the shape that `width` and
    /// `height` give.
    pub open spec fn wf(&self) -> bool {
        &&& self.width >= 1
        &&& self.height >= 1
        &&& self.shaped()
    }

    /// The colour in column `column` of row `row`, where a column or row
    /// beyond the grid counts as the last one.
    pub open spec fn texel_spec(&self, column: u32, row: u32) -> Color {
        let x = if column < self.width {
            column as int
        } else {
            self.width - 1
        };
        let y = if row < self.height {
            row as int
        } else {
            self.height - 1
        };
        self.data@[y]@[x]
    }

    /// `color` is what some column and row of the grid lead to.
    pub open spec fn has_texel(&self, color: Color) -> bool {
        exists|column: u32, row: u32| color == #[trigger] self.texel_spec(column, row)
    }

    /// Whether the texture is well formed.
    pub fn is_wf(&self) -> (r: bool)
        ensures
            r == self.wf(),
    {
        if self.width < 1 || self.height < 1 || self.data.len() != self.height as usize {
            return false;
        }
        let mut y: usize = 0;
        while y < self.data.len()
            invariant
                y <= self.data@.len(),
                forall|j: int| 0 <= j < y ==> (#[trigger] self.data@[j])@.len() == self.width,
            decreases self.data@.len() - y,
        {
            if self.data[y].len() != self.width as usize {
                return false;
            }
            y += 1;
        }
        true
    }

    /// A texture of one colour.
    pub fn solid(color: Color) -> (r: Texture)
        ensures
            r.wf(),
            r.width == 1,
            r.height == 1,
            r.data@[0]@[0] == color,
    {
        let mut row: Vec<Color> = Vec::new();
        row.push(color);
        let mut data: Vec<Vec<Color>> = Vec::new();
        data.push(row);
        Texture { width: 1, height: 1, data }
    }

    /// The colour that stands for one byte of a pixel: the byte over 255.
    pub open spec fn channel_spec<A: Arith>(ops: &A, byte: u8) -> Scalar {
        quotient_of(ops, from_count_of(ops, byte as u32), Scalar { bits: BYTE_MAX_BITS })
    }

    /// The colour that stands for a pixel: each of its bytes over 255.
    pub open spec fn texel_of<A: Arith>(ops: &A, pixel: (u8, u8, u8)) -> Color {
        Vec3 {
            x: Texture::channel_spec(ops, pixel.0),
            y: Texture::channel_spec(ops, pixel.1),
            z: Texture::channel_spec(ops, pixel.2),
        }
    }

    /// The colour at `(u, v)`: the texel in the column and row that come of
    /// holding `u` and `v` to `[0, 1]`, scaling them by the width and the
    /// height, and cutting the products to whole numbers.
    pub open spec fn sample_spec<A: Arith>(&self, ops: &A, u: Scalar, v: Scalar) -> Color {
        let column = product_of(ops, u.unit_clamp_spec(), from_count_of(ops, self.width))
            .truncate_spec();
        let row = product_of(ops, v.unit_clamp_spec(), from_count_of(ops, self.height))
            .truncate_spec();
        self.texel_spec(column as u32, row as u32)
    }

    /// The colour that stands for one byte of a pixel: the byte over 255.
    fn channel<A: Arith>(byte: u8, ops: &A) -> (r: Scalar)
        ensures
            fixed(ops) ==> r == Texture::channel_spec(ops, byte),
    {
        ops.quotient(ops.from_count(byte as u32), Scalar::from_bits(BYTE_MAX_BITS))
    }

    /// The texture that an image holds: as wide and as high as the image,
    /// each pixel's bytes taken from `0 ..= 255` to `[0, 1]`. It is well
    /// formed unless the image is empty.
    pub fn from_image<A: Arith>(img: &Raster, ops: &A) -> (r: Texture)
        ensures
            r.width == raster_size(*img).0,
            r.height == raster_size(*img).1,
            r.shaped(),
            fixed(ops) ==> forall|x: u32, y: u32|
                x < r.width && y < r.height ==> r.data@[y as int]@[x as int] == Texture::texel_of(
                    ops,
                    #[trigger] raster_pixels(*img)[(x, y)],
                ),
    {
        let (width, height) = image_dimensions(img);
        let mut data: Vec<Vec<Color>> = Vec::new();
        let mut y: u32 = 0;
        while y < height
            invariant
                y <= height,
                (width, height) == raster_size(*img),
                data@.len() == y,
                forall|j: int| 0 <= j < data@.len() ==> (#[trigger] data@[j])@.len() == width,
                fixed(ops) ==> forall|i: u32, j: u32|
                    i < width && j < y ==> data@[j as int]@[i as int] == Texture::texel_of(
                        ops,
                        #[trigger] raster_pixels(*img)[(i, j)],
                    ),
            decreases height - y,
        {
            let mut row: Vec<Color> = Vec::new();
            let mut x: u32 = 0;
            while x < width
                invariant
                    x <= width,
                    y < height,
                    (width, height) == raster_size(*img),
                    row@.len() == x,
                    fixed(ops) ==> forall|i: u32|
                        i < x ==> row@[i as int] == Texture::texel_of(
                            ops,
                            #[trigger] raster_pixels(*img)[(i, y)],
                        ),
                decreases width - x,
            {
                let pixel = image_get_pixel(img, x, y);
                row.push(
                    Vec3::new(
                        Texture::channel(pixel.0, ops),
                        Texture::channel(pixel.1, ops),
                        Texture::channel(pixel.2, ops),
                    ),
                );
                x += 1;
            }
            data.push(row);
            y += 1;
        }
        Texture { width, height, data }
    }

    pub fn texel(&self, column: u32, row: u32) -> (r: Color)
        requires
            self.wf(),
        ensures
            r == self.texel_spec(column, row),
    {
        let x = if column < self.width {
            column
        } else {
            self.width - 1
        };
        let y = if row < self.height {
            row
        } else {
            self.height - 1
        };
        self.data[y as usize][x as usize]
    }

    /// The colour at `(u, v)`: both are held to `[0, 1]`, scaled by the width
    /// and the height and cut to whole numbers, which give the column and
    /// the row. The result is always a colour of the grid, and on a grid of
    /// one colour it is that colour.
    pub fn sample<A: Arith>(&self, u: Scalar, v: Scalar, ops: &A) -> (r: Color)
        requires
            self.wf(),
        ensures
            self.has_texel(r),
            self.width == 1 && self.height == 1 ==> r == self.data@[0]@[0],
            fixed(ops) ==> r == self.sample_spec(ops, u, v),
    {
        let u = u.unit_clamp();
        let v = v.unit_clamp();
        let column = ops.product(u, ops.from_count(self.width)).truncate();
        let row = ops.product(v, ops.from_count(self.height)).truncate();
        let r = self.texel(column, row);
        assert(r == self.texel_spec(column, row));
        r
    }
}

/// On a grid of one colour every column and row lead to that colour.
pub proof fn lemma_single_texel(texture: Texture, column: u32, row: u32)
    requires
        texture.wf(),
        texture.width == 1,
        texture.height == 1,
    ensures
        texture.texel_spec(column, row) == texture.data@[0]@[0],
{
}

/// A texel is always one of the colours in the grid.
pub proof fn lemma_texel_in_grid(texture: Texture, column: u32, row: u32)
    requires
        texture.wf(),
    ensures
        exists|x: int, y: int|
            0 <= x < texture.width && 0 <= y < texture.height && texture.texel_spec(column, row)
                == texture.data@[y]@[x],
{
    let x = if column < texture.width {
        column as int
    } else {
        texture.width - 1
    };
    let y = if row < texture.height {
        row as int
    } else {
        texture.height - 1
    };
    assert(0 <= x < texture.width && 0 <= y < texture.height && texture.texel_spec(column, row)
        == texture.data@[y]@[x]);
}

} // verus!
