//! The image pipeline: resamples a source image into the buffers that a
//! character map samples from, and renders the luminance buffer as lines of
//! glyphs.
use crate::common::errors::{resize_failure, MyError, ERROR_RESIZE};
use crate::pipeline::buffers::{BlockView, ColorBuffer, ColorView, LumaBuffer, LumaView};
use crate::pipeline::char_maps::CharMap;
use crate::pipeline::resample::{
    can_be_resampled, luma_plane, nearest_rgb8, resamplable, resample_rgb8, Resampling,
    NEAREST_MAX_ROWS,
};
use vstd::prelude::*;
use vstd::string::StringExecFns;

verus! {

/// `String::push`: appends the given character to the end of the string.
pub assume_specification[ String::push ](text: &mut String, ch: char)
    ensures
        final(text)@ == old(text)@.push(ch),
;

/// The line break that ends a line: a line feed, then a carriage return.
pub open spec fn line_break() -> Seq<char> {
    seq!['\n', '\r']
}

/// Whether the resampler can hold a `width` by `height` image.
pub fn can_resample(width: u32, height: u32) -> (ok: bool)
    ensures
        ok == resamplable(width as nat, height as nat),
{
    assert(width as u64 * height as u64 <= u64::MAX) by (nonlinear_arith)
        requires
            width <= u32::MAX,
            height <= u32::MAX,
    ;
    let count: u64 = width as u64 * height as u64;
    let limit: u64 = isize::MAX as u64;
    width > 0 && height > 0 && count <= u32::MAX as u64 && count * 3 <= limit && 64 * (width as u64
        + height as u64) <= limit
}

/// Whether the resampler can take a `src_width` by `src_height` image to
/// `width` by `height` with the algorithm `filter`.
pub fn can_resample_to(
    src_width: u32,
    src_height: u32,
    width: u32,
    height: u32,
    filter: Resampling,
) -> (ok: bool)
    ensures
        ok == can_be_resampled(
            src_width as nat,
            src_height as nat,
            width as nat,
            height as nat,
            filter,
        ),
{
    if !can_resample(src_width, src_height) || !can_resample(width, height) {
        return false;
    }
    match filter {
        Resampling::Nearest => height <= NEAREST_MAX_ROWS,
        Resampling::Box => {
            assert(src_width as u64 * height as u64 <= u64::MAX) by (nonlinear_arith)
                requires
                    src_width <= u32::MAX,
                    height <= u32::MAX,
            ;
            let count: u64 = src_width as u64 * height as u64;
            count <= u32::MAX as u64 && count * 3 + 3 <= isize::MAX as u64
        },
    }
}

/// A grid with a side beyond 32 bits is not one the resampler can work on.
pub proof fn lemma_wide_grid_unfit(width: nat, height: nat)
    requires
        width > u32::MAX || height > u32::MAX,
    ensures
        !resamplable(width, height),
{
    if width > 0 && height > 0 {
        assert(width * height > u32::MAX) by (nonlinear_arith)
            requires
                width > 0,
                height > 0,
                width > u32::MAX || height > u32::MAX,
        ;
    }
}

/// Turns what the resampler returned for a `width` by `height` target into
/// the pipeline's own terms: the buffer, if the bytes are those of such a
/// grid; the dimension error, if they are not; the resampler's failure
/// wrapped in the pipeline's diagnostic.
pub fn resampled_buffer(width: u32, height: u32, outcome: Result<Vec<u8>, String>) -> (r: Result<
    ColorBuffer,
    MyError,
>)
    ensures
        match outcome {
            Ok(bytes) => if bytes@.len() == width as nat * height as nat * 3 {
                r matches Ok(buffer) && buffer@.wf() && buffer@ == (ColorView {
                    width: width as nat,
                    height: height as nat,
                    pixels: bytes@,
                })
            } else {
                r matches Err(e) && e.is_data_error()
            },
            Err(detail) => r matches Err(e) && e.message() == resize_failure(detail@),
        },
{
    match outcome {
        Ok(bytes) => match ColorBuffer::from_raw(width, height, bytes) {
            Some(buffer) => Ok(buffer),
            None => Err(MyError::data()),
        },
        Err(detail) => {
            let mut text = ERROR_RESIZE.to_owned();
            text.append(":");
            text.append(detail.as_str());
            proof {
                reveal_strlit(":");
                assert(":"@ =~= seq![':']);
            }
            Err(MyError::Pipeline(text))
        },
    }
}

/// Converts images to text: holds the size of the target grid, the character
/// map that picks the glyphs, and whether lines end in a line break.
pub struct ImagePipeline<T: CharMap> {
    /// Width and height of the target grid, in character cells.
    pub target_resolution: (u32, u32),
    /// The character map that picks the glyph of each cell.
    pub char_map: T,
    /// Whether every line but the last ends in a line break.
    pub new_lines: bool,
}

impl<T: CharMap> ImagePipeline<T> {
    /// A pipeline for the given target grid and character map.
    pub fn new(target_resolution: (u32, u32), char_map: T, new_lines: bool) -> (pipeline: Self)
        ensures
            pipeline.target_resolution == target_resolution,
            pipeline.char_map == char_map,
            pipeline.new_lines == new_lines,
    {
        Self { target_resolution, char_map, new_lines }
    }

    /// Sets the size of the target grid and hands the pipeline back for
    /// further changes.
    pub fn set_target_resolution(&mut self, width: u32, height: u32) -> (pipeline: &mut Self)
        ensures
            pipeline.target_resolution == (width, height),
            pipeline.char_map == old(self).char_map,
            pipeline.new_lines == old(self).new_lines,
            *final(self) == *final(pipeline),
    {
        self.target_resolution = (width, height);
        self
    }

    /// Width of the buffer that glyphs are sampled from: one block for each
    /// column of the target grid.
    pub open spec fn subpixel_width(&self) -> nat {
        self.target_resolution.0 as nat * self.char_map.subpixels().0 as nat
    }

    /// Height of the buffer that glyphs are sampled from: one block for each
    /// row of the target grid.
    pub open spec fn subpixel_height(&self) -> nat {
        self.target_resolution.1 as nat * self.char_map.subpixels().1 as nat
    }

    /// Whether the resampler can do both stages of `resize` on a source of
    /// `src_width` by `src_height` pixels: from the source to the buffer for
    /// glyphs by nearest neighbour, and from there to the target grid by box
    /// convolution.
    pub open spec fn sizes_fit(&self, src_width: nat, src_height: nat) -> bool {
        &&& can_be_resampled(
            src_width,
            src_height,
            self.subpixel_width(),
            self.subpixel_height(),
            Resampling::Nearest,
        )
        &&& can_be_resampled(
            self.subpixel_width(),
            self.subpixel_height(),
            self.target_resolution.0 as nat,
            self.target_resolution.1 as nat,
            Resampling::Box,
        )
    }

    /// The colour pixels that the first stage of `resize` computes from the
    /// source pixels `pixels`: the source resampled by nearest neighbour to
    /// the size of the buffer for glyphs.
    pub open spec fn subpixel_stage(&self, src_width: nat, src_height: nat, pixels: Seq<u8>) -> Seq<
        u8,
    > {
        nearest_rgb8(src_width, src_height, pixels, self.subpixel_width(), self.subpixel_height())
    }

    /// Resamples `img` for the target grid and the character map of this
    /// pipeline, in two stages.
    ///
    /// The first stage scales the image by nearest neighbour to one block of
    /// the character map for each cell of the grid; its luminance is the
    /// buffer that glyphs are sampled from. The second stage scales the
    /// result of the first by box convolution to one pixel for each cell:
    /// the colour of the cell.
    ///
    /// The call succeeds exactly when the resampler can work on the sizes.
    /// A size that it cannot work on is the dimension error: a zero width or
    /// height of the source or of the target grid, or a grid too large for
    /// the resampler's arithmetic, as one whose buffer for glyphs has more
    /// rows than nearest neighbour can step through.
    pub fn resize(&self, img: &ColorBuffer) -> (r: Result<(LumaBuffer, ColorBuffer), MyError>)
        ensures
            r is Ok <==> self.sizes_fit(img@.width, img@.height),
            r matches Ok((luma, color)) ==> {
                &&& luma@.wf()
                &&& luma@.width == self.target_resolution.0 * self.char_map.subpixels().0
                &&& luma@.height == self.target_resolution.1 * self.char_map.subpixels().1
                &&& luma@.pixels == luma_plane(
                    self.subpixel_stage(img@.width, img@.height, img@.pixels),
                )
                &&& color@.wf()
                &&& color@.width == self.target_resolution.0
                &&& color@.height == self.target_resolution.1
            },
            r matches Err(e) ==> e.is_data_error(),
    {
        let (block_width, block_height) = self.char_map.get_subpixels();
        let (width, height) = self.target_resolution;
        assert(width as u64 * block_width as u64 <= u64::MAX && height as u64 * block_height as u64
            <= u64::MAX) by (nonlinear_arith)
            requires
                width <= u32::MAX,
                height <= u32::MAX,
                block_width <= u32::MAX,
                block_height <= u32::MAX,
        ;
        let subpixel_width: u64 = width as u64 * block_width as u64;
        let subpixel_height: u64 = height as u64 * block_height as u64;
        if subpixel_width > u32::MAX as u64 || subpixel_height > u32::MAX as u64 {
            proof {
                lemma_wide_grid_unfit(self.subpixel_width(), self.subpixel_height());
            }
            return Err(MyError::data());
        }
        let subpixel_img = self.resize_single(
            img,
            subpixel_width as u32,
            subpixel_height as u32,
            Resampling::Nearest,
        )?;
        let color_img = self.resize_single(&subpixel_img, width, height, Resampling::Box)?;
        Ok((subpixel_img.into_luma8(), color_img))
    }

    /// The block of samples that decides the glyph in column `x` of row `y`
    /// of the target grid.
    pub open spec fn cell(&self, input: LumaView, x: int, y: int) -> BlockView {
        BlockView {
            source: input,
            x: (x * self.char_map.subpixels().0) as nat,
            y: (y * self.char_map.subpixels().1) as nat,
            width: self.char_map.subpixels().0 as nat,
            height: self.char_map.subpixels().1 as nat,
        }
    }

    /// The glyphs of row `y` of the target grid, from left to right.
    pub open spec fn row_glyphs(&self, input: LumaView, y: int) -> Seq<char> {
        Seq::new(
            self.target_resolution.0 as nat,
            |x: int| self.char_map.glyph(self.cell(input, x, y)),
        )
    }

    /// What follows the glyphs of row `y`: the line break, if line breaks are
    /// asked for and the row is not the last; nothing otherwise.
    pub open spec fn line_end(&self, y: int) -> Seq<char> {
        if self.new_lines && y + 1 < self.target_resolution.1 {
            line_break()
        } else {
            Seq::empty()
        }
    }

    /// Line `y` of the rendered text: the prefix of the character map, the
    /// glyphs of the row, and the end of the line.
    pub open spec fn rendered_line(&self, input: LumaView, y: int) -> Seq<char> {
        self.char_map.line_prefix() + self.row_glyphs(input, y) + self.line_end(y)
    }

    /// Renders the luminance buffer as text, one line for each row of the
    /// target grid.
    ///
    /// The buffer must hold exactly one block of the character map for each
    /// cell of the grid, and the character map must be able to give a glyph
    /// if there is any cell. Every cell becomes the glyph that the character
    /// map gives for its block. Every line opens with the prefix of the
    /// character map; if line breaks are asked for, every line but the last
    /// ends in one.
    pub fn to_ascii(&self, input: &LumaBuffer) -> (lines: Vec<String>)
        requires
            self.target_resolution.0 > 0 && self.target_resolution.1 > 0 ==> self.char_map.wf(),
            input@.width == self.target_resolution.0 * self.char_map.subpixels().0,
            input@.height == self.target_resolution.1 * self.char_map.subpixels().1,
        ensures
            lines@.len() == self.target_resolution.1,
            forall|y: int|
                0 <= y < lines@.len() ==> (#[trigger] lines@[y])@ == self.rendered_line(input@, y),
    {
        let (width, height) = self.target_resolution;
        let (subpixel_width, subpixel_height) = self.char_map.get_subpixels();
        let prefix = self.char_map.get_line_prefix();
        let input_width = input.width();
        let input_height = input.height();
        let mut output: Vec<String> = Vec::new();
        for y in 0..height
            invariant
                width > 0 && height > 0 ==> self.char_map.wf(),
                (width, height) == self.target_resolution,
                (subpixel_width, subpixel_height) == self.char_map.subpixels(),
                prefix@ == self.char_map.line_prefix(),
                input@.width == width * subpixel_width == input_width,
                input@.height == height * subpixel_height == input_height,
                output@.len() == y,
                forall|row: int|
                    0 <= row < y ==> (#[trigger] output@[row])@ == self.rendered_line(input@, row),
        {
            let mut line = prefix.to_owned();
            assert(y * subpixel_height + subpixel_height <= height * subpixel_height && 0 <= y
                * subpixel_height) by (nonlinear_arith)
                requires
                    0 <= y < height,
                    0 <= subpixel_height,
            ;
            for x in 0..width
                invariant
                    width > 0 && height > 0 ==> self.char_map.wf(),
                    (width, height) == self.target_resolution,
                    (subpixel_width, subpixel_height) == self.char_map.subpixels(),
                    input@.width == width * subpixel_width == input_width,
                    input@.height == height * subpixel_height == input_height,
                    y < height,
                    y * subpixel_height + subpixel_height <= height * subpixel_height,
                    0 <= y * subpixel_height,
                    line@ == self.char_map.line_prefix() + self.row_glyphs(input@, y as int).take(
                        x as int,
                    ),
            {
                assert(x * subpixel_width + subpixel_width <= width * subpixel_width && 0 <= x
                    * subpixel_width) by (nonlinear_arith)
                    requires
                        0 <= x < width,
                        0 <= subpixel_width,
                ;
                let block = input.block(
                    x * subpixel_width,
                    y * subpixel_height,
                    subpixel_width,
                    subpixel_height,
                );
                let glyph = self.char_map.get_char(&block);
                line.push(glyph);
                proof {
                    let row = self.row_glyphs(input@, y as int);
                    assert(block@ == self.cell(input@, x as int, y as int));
                    assert(row.take(x + 1) =~= row.take(x as int).push(row[x as int]));
                }
            }
            proof {
                let row = self.row_glyphs(input@, y as int);
                assert(row.take(width as int) =~= row);
            }
            if self.new_lines && y + 1 < height {
                line.push('\n');
                line.push('\r');
            }
            assert(line@ =~= self.rendered_line(input@, y as int));
            output.push(line);
        }
        output
    }

    /// Resamples `img` to `width` by `height` with the algorithm `algo`.
    ///
    /// The call succeeds exactly when the resampler can work on the sizes; a
    /// size that it cannot work on, of the source or of the target, is the
    /// dimension error, and the resampler is not called. The result has the
    /// size asked for and holds the bytes that the resampler computed; by
    /// nearest neighbour these are fixed by the source and the sizes.
    pub fn resize_single(&self, img: &ColorBuffer, width: u32, height: u32, algo: Resampling) -> (r:
        Result<ColorBuffer, MyError>)
        ensures
            r is Ok <==> can_be_resampled(
                img@.width,
                img@.height,
                width as nat,
                height as nat,
                algo,
            ),
            r matches Ok(buffer) ==> {
                &&& buffer@.wf()
                &&& buffer@.width == width
                &&& buffer@.height == height
                &&& algo == Resampling::Nearest ==> buffer@.pixels == nearest_rgb8(
                    img@.width,
                    img@.height,
                    img@.pixels,
                    width as nat,
                    height as nat,
                )
            },
            r matches Err(e) ==> e.is_data_error(),
    {
        if !can_resample_to(img.width(), img.height(), width, height, algo) {
            return Err(MyError::data());
        }
        let pixels = img.as_raw().clone();
        let outcome = resample_rgb8(img.width(), img.height(), pixels, width, height, algo);
        resampled_buffer(width, height, outcome)
    }
}

/// What holds of the line breaks and of the length of every rendered text.
impl<T: CharMap> ImagePipeline<T> {
    /// Number of rows among the first `rows` whose line ends in a line break.
    pub open spec fn line_breaks_in(&self, rows: nat) -> nat
        decreases rows,
    {
        if rows == 0 {
            0
        } else {
            self.line_breaks_in((rows - 1) as nat) + if self.line_end(rows - 1).len() > 0 {
                1nat
            } else {
                0nat
            }
        }
    }

    /// Number of characters of the first `rows` lines of the rendered text.
    pub open spec fn characters_in(&self, input: LumaView, rows: nat) -> nat
        decreases rows,
    {
        if rows == 0 {
            0
        } else {
            self.characters_in(input, (rows - 1) as nat) + self.rendered_line(
                input,
                rows - 1,
            ).len()
        }
    }

    /// Without line breaks asked for, no line holds anything but the prefix
    /// and the glyphs of its row.
    pub proof fn lemma_no_line_breaks(&self, input: LumaView, y: int)
        requires
            !self.new_lines,
        ensures
            self.rendered_line(input, y) == self.char_map.line_prefix() + self.row_glyphs(
                input,
                y,
            ),
            self.rendered_line(input, y).len() == self.char_map.line_prefix().len()
                + self.target_resolution.0,
            self.line_breaks_in(self.target_resolution.1 as nat) == 0,
    {
        assert(self.rendered_line(input, y) =~= self.char_map.line_prefix() + self.row_glyphs(
            input,
            y,
        ));
        self.lemma_count_line_breaks(self.target_resolution.1 as nat);
    }

    /// With line breaks asked for, a line ends in the line break exactly when
    /// another line follows it: there is one line break fewer than there are
    /// rows, and none after the last row.
    pub proof fn lemma_line_breaks_between_rows(&self)
        requires
            self.new_lines,
            self.target_resolution.1 > 0,
        ensures
            forall|y: int|
                0 <= y < self.target_resolution.1 - 1 ==> #[trigger] self.line_end(y)
                    == line_break(),
            self.line_end(self.target_resolution.1 - 1) == Seq::<char>::empty(),
            self.line_breaks_in(self.target_resolution.1 as nat) == self.target_resolution.1 - 1,
    {
        self.lemma_count_line_breaks(self.target_resolution.1 as nat);
    }

    /// The first `rows` lines hold as many line breaks as there are rows
    /// among them that another row follows, if line breaks are asked for, and
    /// none if they are not.
    pub proof fn lemma_count_line_breaks(&self, rows: nat)
        requires
            rows <= self.target_resolution.1,
        ensures
            self.line_breaks_in(rows) == if !self.new_lines {
                0
            } else if rows < self.target_resolution.1 {
                rows as int
            } else if rows == 0 {
                0
            } else {
                rows - 1
            },
        decreases rows,
    {
        if rows > 0 {
            self.lemma_count_line_breaks((rows - 1) as nat);
            assert(line_break().len() == 2);
        }
    }

    /// The rendered text holds, for each row, the prefix and one glyph for
    /// each column, and two characters for each line break.
    pub proof fn lemma_count_characters(&self, input: LumaView, rows: nat)
        requires
            rows <= self.target_resolution.1,
        ensures
            self.characters_in(input, rows) == rows * (self.char_map.line_prefix().len()
                + self.target_resolution.0) + 2 * self.line_breaks_in(rows),
        decreases rows,
    {
        let per_row = self.char_map.line_prefix().len() + self.target_resolution.0;
        if rows > 0 {
            self.lemma_count_characters(input, (rows - 1) as nat);
            assert(line_break().len() == 2);
            assert(self.rendered_line(input, rows - 1).len() == per_row + self.line_end(
                rows - 1,
            ).len());
            assert(rows * per_row == (rows - 1) * per_row + per_row) by (nonlinear_arith);
        } else {
            assert(rows * per_row == 0) by (nonlinear_arith)
                requires
                    rows == 0,
            ;
        }
    }
}

} // verus!
