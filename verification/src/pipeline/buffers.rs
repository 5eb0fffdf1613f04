//! Pixel buffers: the luminance grid that glyphs are sampled from, the colour
//! grid that accompanies them, and the window through which one glyph's block
//! of samples is read.
use crate::pipeline::resample::{luma8_bytes, luma_plane};
use vstd::prelude::*;

verus! {

/// A grid of 8-bit luminance samples as a mathematical value. The samples are
/// laid out row by row, the top row first.
pub struct LumaView {
    pub width: nat,
    pub height: nat,
    pub pixels: Seq<u8>,
}

impl LumaView {
    /// There is exactly one sample for each position of the grid.
    pub open spec fn wf(self) -> bool {
        self.pixels.len() == self.width * self.height
    }

    /// The sample in column `x` of row `y`.
    pub open spec fn at(self, x: int, y: int) -> u8 {
        self.pixels[y * self.width + x]
    }
}

/// A grid of colour pixels as a mathematical value: three bytes for each
/// pixel, row by row.
pub struct ColorView {
    pub width: nat,
    pub height: nat,
    pub pixels: Seq<u8>,
}

impl ColorView {
    /// There are exactly three bytes for each position of the grid.
    pub open spec fn wf(self) -> bool {
        self.pixels.len() == self.width * self.height * 3
    }

    /// Channel `channel` (0 red, 1 green, 2 blue) of the pixel in column `x`
    /// of row `y`.
    pub open spec fn at(self, x: int, y: int, channel: int) -> u8 {
        self.pixels[(y * self.width + x) * 3 + channel]
    }
}

/// A rectangular window onto a luminance grid as a mathematical value.
pub struct BlockView {
    pub source: LumaView,
    pub x: nat,
    pub y: nat,
    pub width: nat,
    pub height: nat,
}

impl BlockView {
    /// The window lies inside the grid it looks at.
    pub open spec fn wf(self) -> bool {
        &&& self.source.wf()
        &&& self.x + self.width <= self.source.width
        &&& self.y + self.height <= self.source.height
    }

    /// The sample in column `x` of row `y`, counted from the window's corner.
    pub open spec fn at(self, x: int, y: int) -> u8 {
        self.source.at(self.x + x, self.y + y)
    }
}

/// Row-major positions stay inside the grid.
pub proof fn lemma_index_in_grid(x: int, y: int, width: int, height: int)
    requires
        0 <= x < width,
        0 <= y < height,
    ensures
        0 <= y * width + x < width * height,
        y * width + x + 1 <= width * height,
{
    assert(y * width + width <= height * width) by (nonlinear_arith)
        requires
            0 <= y < height,
            0 <= width,
    ;
    assert(0 <= y * width) by (nonlinear_arith)
        requires
            0 <= y,
            0 <= width,
    ;
    assert(height * width == width * height) by (nonlinear_arith);
}

/// An owned grid of 8-bit luminance samples.
#[derive(Debug, PartialEq, Eq)]
pub struct LumaBuffer {
    width: u32,
    height: u32,
    data: Vec<u8>,
}

impl View for LumaBuffer {
    type V = LumaView;

    closed spec fn view(&self) -> LumaView {
        LumaView { width: self.width as nat, height: self.height as nat, pixels: self.data@ }
    }
}

impl Clone for LumaBuffer {
    fn clone(&self) -> (copy: Self)
        ensures
            copy@ == self@,
    {
        proof {
            use_type_invariant(self);
        }
        LumaBuffer { width: self.width, height: self.height, data: self.data.clone() }
    }
}

impl LumaBuffer {
    #[verifier::type_invariant]
    spec fn holds_every_sample(&self) -> bool {
        self.data@.len() == self.width as nat * self.height as nat
    }

    /// Takes ownership of `data` as a `width` by `height` grid. The buffer is
    /// accepted exactly when it holds one sample for each position.
    pub fn from_raw(width: u32, height: u32, data: Vec<u8>) -> (buffer: Option<LumaBuffer>)
        ensures
            buffer is Some <==> data@.len() == width as nat * height as nat,
            buffer matches Some(b) ==> b@ == (LumaView {
                width: width as nat,
                height: height as nat,
                pixels: data@,
            }) && b@.wf(),
    {
        assert(width as u64 * height as u64 <= u64::MAX) by (nonlinear_arith)
            requires
                width <= u32::MAX,
                height <= u32::MAX,
        ;
        let wanted: u64 = width as u64 * height as u64;
        if data.len() as u64 == wanted {
            Some(LumaBuffer { width, height, data })
        } else {
            None
        }
    }

    /// Number of columns.
    pub fn width(&self) -> (w: u32)
        ensures
            w == self@.width,
            self@.wf(),
    {
        proof {
            use_type_invariant(self);
        }
        self.width
    }

    /// Number of rows.
    pub fn height(&self) -> (h: u32)
        ensures
            h == self@.height,
            self@.wf(),
    {
        proof {
            use_type_invariant(self);
        }
        self.height
    }

    /// The sample in column `x` of row `y`.
    pub fn get_pixel(&self, x: u32, y: u32) -> (sample: u8)
        requires
            x < self@.width,
            y < self@.height,
        ensures
            sample == self@.at(x as int, y as int),
    {
        proof {
            use_type_invariant(self);
            lemma_index_in_grid(x as int, y as int, self.width as int, self.height as int);
            assert(self.data@.len() == self.data.len());
        }
        let index: usize = y as usize * self.width as usize + x as usize;
        self.data[index]
    }

    /// The samples, row by row.
    pub fn as_raw(&self) -> (data: &Vec<u8>)
        ensures
            data@ == self@.pixels,
            self@.wf(),
    {
        proof {
            use_type_invariant(self);
        }
        &self.data
    }

    /// Gives up the grid and returns its samples, row by row.
    pub fn into_raw(self) -> (data: Vec<u8>)
        ensures
            data@ == self@.pixels,
            self@.wf(),
    {
        proof {
            use_type_invariant(&self);
        }
        self.data
    }

    /// A window of `width` by `height` samples whose top left corner is at
    /// column `x` of row `y`.
    pub fn block(&self, x: u32, y: u32, width: u32, height: u32) -> (window: PixelBlock<'_>)
        requires
            x + width <= self@.width,
            y + height <= self@.height,
        ensures
            window@ == (BlockView {
                source: self@,
                x: x as nat,
                y: y as nat,
                width: width as nat,
                height: height as nat,
            }),
            window@.wf(),
    {
        proof {
            use_type_invariant(self);
        }
        PixelBlock { image: self, x, y, width, height }
    }
}

/// A borrowed rectangular window onto a luminance buffer: the block of samples
/// that decides one glyph.
#[derive(Debug, Clone, Copy)]
pub struct PixelBlock<'a> {
    image: &'a LumaBuffer,
    x: u32,
    y: u32,
    width: u32,
    height: u32,
}

impl<'a> View for PixelBlock<'a> {
    type V = BlockView;

    closed spec fn view(&self) -> BlockView {
        BlockView {
            source: self.image@,
            x: self.x as nat,
            y: self.y as nat,
            width: self.width as nat,
            height: self.height as nat,
        }
    }
}

impl<'a> PixelBlock<'a> {
    #[verifier::type_invariant]
    spec fn lies_inside(&self) -> bool {
        &&& self.x + self.width <= self.image.width
        &&& self.y + self.height <= self.image.height
    }

    /// Number of columns of the window.
    pub fn width(&self) -> (w: u32)
        ensures
            w == self@.width,
    {
        self.width
    }

    /// Number of rows of the window.
    pub fn height(&self) -> (h: u32)
        ensures
            h == self@.height,
    {
        self.height
    }

    /// The sample in column `x` of row `y`, counted from the window's corner.
    pub fn get_pixel(&self, x: u32, y: u32) -> (sample: u8)
        requires
            x < self@.width,
            y < self@.height,
        ensures
            sample == self@.at(x as int, y as int),
    {
        proof {
            use_type_invariant(self);
        }
        self.image.get_pixel(self.x + x, self.y + y)
    }
}

/// An owned grid of colour pixels, three bytes each.
#[derive(Debug, PartialEq, Eq)]
pub struct ColorBuffer {
    width: u32,
    height: u32,
    data: Vec<u8>,
}

impl View for ColorBuffer {
    type V = ColorView;

    closed spec fn view(&self) -> ColorView {
        ColorView { width: self.width as nat, height: self.height as nat, pixels: self.data@ }
    }
}

impl Clone for ColorBuffer {
    fn clone(&self) -> (copy: Self)
        ensures
            copy@ == self@,
    {
        proof {
            use_type_invariant(self);
        }
        ColorBuffer { width: self.width, height: self.height, data: self.data.clone() }
    }
}

impl ColorBuffer {
    #[verifier::type_invariant]
    spec fn holds_every_pixel(&self) -> bool {
        self.data@.len() == self.width as nat * self.height as nat * 3
    }

    /// Takes ownership of `data` as a `width` by `height` grid. The buffer is
    /// accepted exactly when it holds three bytes for each position.
    pub fn from_raw(width: u32, height: u32, data: Vec<u8>) -> (buffer: Option<ColorBuffer>)
        ensures
            buffer is Some <==> data@.len() == width as nat * height as nat * 3,
            buffer matches Some(b) ==> b@ == (ColorView {
                width: width as nat,
                height: height as nat,
                pixels: data@,
            }) && b@.wf(),
    {
        assert(width as u128 * height as u128 * 3 <= u128::MAX) by (nonlinear_arith)
            requires
                width <= u32::MAX,
                height <= u32::MAX,
        ;
        let wanted: u128 = width as u128 * height as u128 * 3;
        if data.len() as u128 == wanted {
            Some(ColorBuffer { width, height, data })
        } else {
            None
        }
    }

    /// Number of columns.
    pub fn width(&self) -> (w: u32)
        ensures
            w == self@.width,
            self@.wf(),
    {
        proof {
            use_type_invariant(self);
        }
        self.width
    }

    /// Number of rows.
    pub fn height(&self) -> (h: u32)
        ensures
            h == self@.height,
            self@.wf(),
    {
        proof {
            use_type_invariant(self);
        }
        self.height
    }

    /// The red, green and blue bytes of the pixel in column `x` of row `y`.
    pub fn get_pixel(&self, x: u32, y: u32) -> (rgb: (u8, u8, u8))
        requires
            x < self@.width,
            y < self@.height,
        ensures
            rgb.0 == self@.at(x as int, y as int, 0),
            rgb.1 == self@.at(x as int, y as int, 1),
            rgb.2 == self@.at(x as int, y as int, 2),
    {
        proof {
            use_type_invariant(self);
            lemma_index_in_grid(x as int, y as int, self.width as int, self.height as int);
            assert(self.data@.len() == self.data.len());
        }
        let first: usize = (y as usize * self.width as usize + x as usize) * 3;
        (self.data[first], self.data[first + 1], self.data[first + 2])
    }

    /// The bytes, pixel by pixel and row by row.
    pub fn as_raw(&self) -> (data: &Vec<u8>)
        ensures
            data@ == self@.pixels,
            self@.wf(),
    {
        proof {
            use_type_invariant(self);
        }
        &self.data
    }

    /// Gives up the grid and returns its bytes, pixel by pixel and row by row.
    pub fn into_raw(self) -> (data: Vec<u8>)
        ensures
            data@ == self@.pixels,
            self@.wf(),
    {
        proof {
            use_type_invariant(&self);
        }
        self.data
    }

    /// Gives up the colours and returns the luminance of every pixel.
    pub fn into_luma8(self) -> (luma: LumaBuffer)
        ensures
            luma@ == (LumaView {
                width: self@.width,
                height: self@.height,
                pixels: luma_plane(self@.pixels),
            }),
            luma@.wf(),
    {
        proof {
            use_type_invariant(&self);
        }
        let width = self.width;
        let height = self.height;
        if width == 0 || height == 0 {
            assert(width as nat * height as nat == 0) by (nonlinear_arith)
                requires
                    width == 0 || height == 0,
            ;
            assert(luma_plane(self.data@) =~= Seq::<u8>::empty());
            return LumaBuffer { width, height, data: Vec::new() };
        }
        assert(3 * width as nat <= width as nat * height as nat * 3) by (nonlinear_arith)
            requires
                height >= 1,
        ;
        assert(self.data@.len() == self.data.len());
        let data = luma8_bytes(width, height, self.data);
        LumaBuffer { width, height, data }
    }
}

} // verus!
