use glyph_pipeline::common::errors::{MyError, ERROR_DATA, ERROR_RESIZE};
use glyph_pipeline::pipeline::buffers::{ColorBuffer, LumaBuffer};
use glyph_pipeline::pipeline::char_maps::{
    Braille, CharMap, CharMaps, Mosaic, TeletextMosaic, CHARS1,
};
use glyph_pipeline::pipeline::image_pipeline::{
    can_resample, can_resample_to, resampled_buffer, ImagePipeline,
};
use glyph_pipeline::pipeline::resample::Resampling;

/// A colour picture of 256 by 256 pixels with a different colour at every
/// position.
fn test_image() -> ColorBuffer {
    let mut data = Vec::with_capacity(256 * 256 * 3);
    for y in 0..256u32 {
        for x in 0..256u32 {
            data.push(x as u8);
            data.push(y as u8);
            data.push(((x + y) / 2) as u8);
        }
    }
    ColorBuffer::from_raw(256, 256, data).expect("a full picture")
}

fn uniform(width: u32, height: u32, rgb: [u8; 3]) -> ColorBuffer {
    let mut data = Vec::new();
    for _ in 0..width * height {
        data.extend_from_slice(&rgb);
    }
    ColorBuffer::from_raw(width, height, data).expect("a full picture")
}

fn message(error: MyError) -> String {
    error.to_text()
}

#[test]
fn test_new() {
    let image = ImagePipeline::new((120, 80), vec!['a', 'b', 'c'], false);
    assert_eq!(image.target_resolution, (120, 80));
    assert_eq!(image.char_map, vec!['a', 'b', 'c']);
}

#[test]
fn test_process() {
    let image = ImagePipeline::new((120, 80), vec!['a', 'b', 'c'], false);
    let input = test_image();

    let output = image.resize(&input).expect("Failed to resize image").1;
    assert_eq!(output.width(), 120);
    assert_eq!(output.height(), 80);
}

#[test]
fn test_to_ascii_ext() {
    let image = ImagePipeline::new((120, 80), CHARS1.chars().collect::<Vec<char>>(), false);
    let input = test_image();
    let output = image.to_ascii(&image.resize(&input).expect("Failed to resize image").0);
    assert_eq!(output.iter().map(|str| str.chars().count()).sum::<usize>(), 120 * 80);
}

#[test]
fn test_to_ascii() {
    let image = ImagePipeline::new((120, 80), vec!['a', 'b', 'c'], false);
    let input = test_image();
    let output = image.to_ascii(&image.resize(&input).expect("Failed to resize image").0);
    assert_eq!(output.iter().map(|str| str.chars().count()).sum::<usize>(), 120 * 80);
}

#[test]
fn new_keeps_the_line_break_flag() {
    assert!(ImagePipeline::new((1, 1), Braille, true).new_lines);
    assert!(!ImagePipeline::new((1, 1), Braille, false).new_lines);
}

#[test]
fn set_target_resolution_changes_only_the_resolution() {
    let mut pipeline = ImagePipeline::new((120, 80), vec!['a', 'b', 'c'], true);
    pipeline.set_target_resolution(3, 4);
    assert_eq!(pipeline.target_resolution, (3, 4));
    assert_eq!(pipeline.char_map, vec!['a', 'b', 'c']);
    assert!(pipeline.new_lines);
    pipeline.set_target_resolution(5, 6).set_target_resolution(7, 8);
    assert_eq!(pipeline.target_resolution, (7, 8));
}

fn sizes_after_resize<T: CharMap>(map: T, width: u32, height: u32) -> ((u32, u32), (u32, u32)) {
    let pipeline = ImagePipeline::new((width, height), map, false);
    let (luma, color) = pipeline.resize(&test_image()).expect("sizes that fit");
    assert_eq!(luma.as_raw().len() as u32, luma.width() * luma.height());
    assert_eq!(color.as_raw().len() as u32, color.width() * color.height() * 3);
    ((luma.width(), luma.height()), (color.width(), color.height()))
}

#[test]
fn resize_sizes_for_every_map() {
    for (width, height) in [(1u32, 1u32), (1, 7), (7, 1), (13, 5), (40, 30), (300, 2)] {
        let lookup = sizes_after_resize(vec!['a', 'b'], width, height);
        assert_eq!(lookup, ((width, height), (width, height)));
        let braille = sizes_after_resize(Braille, width, height);
        assert_eq!(braille, ((width * 2, height * 4), (width, height)));
        let mosaic = sizes_after_resize(Mosaic, width, height);
        assert_eq!(mosaic, ((width * 2, height * 3), (width, height)));
        let teletext = sizes_after_resize(TeletextMosaic, width, height);
        assert_eq!(teletext, ((width * 2, height * 3), (width, height)));
        let chosen = sizes_after_resize(CharMaps::Braille, width, height);
        assert_eq!(chosen, ((width * 2, height * 4), (width, height)));
    }
}

#[test]
fn resize_rejects_zero_target() {
    for target in [(0u32, 5u32), (5, 0), (0, 0)] {
        let pipeline = ImagePipeline::new(target, Braille, false);
        let error = pipeline.resize(&test_image()).expect_err("no such grid");
        assert_eq!(message(error), ERROR_DATA);
    }
}

#[test]
fn resize_rejects_empty_source() {
    let pipeline = ImagePipeline::new((4, 4), Braille, false);
    for (width, height) in [(0u32, 3u32), (3, 0), (0, 0)] {
        let input = ColorBuffer::from_raw(width, height, Vec::new()).expect("an empty picture");
        let error = pipeline.resize(&input).expect_err("nothing to resample");
        assert_eq!(message(error), ERROR_DATA);
    }
}

#[test]
fn resize_rejects_grid_beyond_the_resampler() {
    let wide = ImagePipeline::new((u32::MAX, 1), Braille, false);
    assert_eq!(message(wide.resize(&test_image()).expect_err("too wide")), ERROR_DATA);
    let large = ImagePipeline::new((70000, 70000), vec!['a'], false);
    assert_eq!(message(large.resize(&test_image()).expect_err("too large")), ERROR_DATA);
}

#[test]
fn can_resample_marks_the_limits() {
    assert!(can_resample(1, 1));
    assert!(can_resample(65535, 65537));
    assert!(can_resample(u32::MAX, 1));
    assert!(!can_resample(65536, 65536));
    assert!(!can_resample(0, 1));
    assert!(!can_resample(1, 0));
    assert!(!can_resample(u32::MAX, 2));
}

#[test]
fn box_convolution_needs_room_for_its_scratch_image() {
    assert!(can_resample_to(65536, 2, 1, 65536, Resampling::Nearest));
    assert!(!can_resample_to(65536, 2, 1, 65536, Resampling::Box));
    assert!(can_resample_to(65536, 2, 1, 65535, Resampling::Box));
    assert!(can_resample_to(4, 4, 1, 1, Resampling::Box));
    assert!(!can_resample_to(0, 4, 1, 1, Resampling::Box));
    assert!(!can_resample_to(4, 4, 1, 0, Resampling::Nearest));
}

#[test]
fn nearest_neighbour_has_a_limit_of_rows() {
    assert!(can_resample_to(1, 1, 1, 0x400_0000, Resampling::Nearest));
    assert!(!can_resample_to(1, 1, 1, 0x400_0001, Resampling::Nearest));
    assert!(!can_resample_to(1, 1, 1, 335_544_320, Resampling::Nearest));
    assert!(can_resample_to(1, 1, 0x400_0001, 1, Resampling::Nearest));
    let pipeline = ImagePipeline::new((1, 1), Braille, false);
    let source = ColorBuffer::from_raw(1, 1, vec![1, 2, 3]).expect("one pixel");
    let error = pipeline
        .resize_single(&source, 1, 335_544_320, Resampling::Nearest)
        .expect_err("too many rows to step through");
    assert_eq!(message(error), ERROR_DATA);
    let tall = ImagePipeline::new((1, 0x100_0001), Braille, false);
    assert_eq!(message(tall.resize(&source).expect_err("too many rows")), ERROR_DATA);
}

#[test]
fn resize_single_rejects_a_scratch_image_beyond_the_resampler() {
    let pipeline = ImagePipeline::new((1, 1), Braille, false);
    let source = ColorBuffer::from_raw(65536, 2, vec![0; 65536 * 2 * 3]).expect("two rows");
    let error = pipeline
        .resize_single(&source, 1, 65536, Resampling::Box)
        .expect_err("no room for the scratch image");
    assert_eq!(message(error), ERROR_DATA);
    let target = pipeline
        .resize_single(&source, 1, 4, Resampling::Box)
        .expect("a scratch image that fits");
    assert_eq!(target.into_raw(), vec![0; 12]);
}

#[test]
fn resize_uniform_gray_picks_middle_of_ramp() {
    let ramp: Vec<char> = CHARS1.chars().collect();
    let pipeline = ImagePipeline::new((1, 1), ramp, false);
    let input = uniform(4, 4, [128, 128, 128]);
    let (luma, color) = pipeline.resize(&input).expect("sizes that fit");
    assert_eq!((luma.width(), luma.height()), (1, 1));
    assert_eq!(luma.get_pixel(0, 0), 128);
    assert_eq!(color.get_pixel(0, 0), (128, 128, 128));
    let lines = pipeline.to_ascii(&luma);
    assert_eq!(lines, vec![String::from("+")]);
    assert_eq!(CHARS1.chars().nth(10 * 128 / 256), Some('+'));
}

#[test]
fn resize_keeps_uniform_colour() {
    let pipeline = ImagePipeline::new((3, 2), Braille, false);
    let (luma, color) = pipeline.resize(&uniform(9, 7, [200, 100, 50])).expect("sizes that fit");
    assert_eq!(luma.as_raw(), &vec![117; 6 * 8]);
    for y in 0..2 {
        for x in 0..3 {
            assert_eq!(color.get_pixel(x, y), (200, 100, 50));
        }
    }
}

#[test]
fn resize_keeps_a_picture_of_the_same_size() {
    let pipeline = ImagePipeline::new((2, 2), vec!['a', 'b'], false);
    let gray = ColorBuffer::from_raw(2, 2, vec![0, 0, 0, 255, 255, 255, 255, 255, 255, 0, 0, 0])
        .expect("four pixels");
    let (luma, color) = pipeline.resize(&gray).expect("sizes that fit");
    assert_eq!(luma.as_raw(), &vec![0, 255, 255, 0]);
    assert_eq!(color.get_pixel(1, 0), (255, 255, 255));
    assert_eq!(color.get_pixel(1, 1), (0, 0, 0));
    assert_eq!(pipeline.to_ascii(&luma), vec![String::from("ab"), String::from("ba")]);
}

#[test]
fn resize_samples_nearest_neighbour_for_glyphs() {
    let left_dark = {
        let mut data = Vec::new();
        for _y in 0..4 {
            for x in 0..4u32 {
                let level = if x < 2 { 0 } else { 255 };
                data.extend_from_slice(&[level, level, level]);
            }
        }
        ColorBuffer::from_raw(4, 4, data).expect("a full picture")
    };
    let pipeline = ImagePipeline::new((1, 1), Braille, false);
    let (luma, color) = pipeline.resize(&left_dark).expect("sizes that fit");
    assert_eq!(luma.as_raw(), &vec![0, 255, 0, 255, 0, 255, 0, 255]);
    assert_eq!(pipeline.to_ascii(&luma), vec![String::from("\u{28B8}")]);
    let (red, green, blue) = color.get_pixel(0, 0);
    assert!(126 <= red && red <= 129);
    assert_eq!((red, red), (green, blue));
}

#[test]
fn resize_single_scales_up_by_copying() {
    let pipeline = ImagePipeline::new((1, 1), Braille, false);
    let source = ColorBuffer::from_raw(2, 1, vec![1, 2, 3, 4, 5, 6]).expect("two pixels");
    let target = pipeline
        .resize_single(&source, 4, 2, Resampling::Nearest)
        .expect("sizes that fit");
    assert_eq!((target.width(), target.height()), (4, 2));
    let row = vec![1, 2, 3, 1, 2, 3, 4, 5, 6, 4, 5, 6];
    assert_eq!(target.into_raw(), [row.clone(), row].concat());
}

#[test]
fn resize_single_box_averages() {
    let pipeline = ImagePipeline::new((1, 1), Braille, false);
    let source = ColorBuffer::from_raw(2, 2, vec![0, 0, 0, 100, 100, 100, 100, 100, 100, 200, 200, 200])
        .expect("four pixels");
    let target = pipeline.resize_single(&source, 1, 1, Resampling::Box).expect("sizes that fit");
    assert_eq!((target.width(), target.height()), (1, 1));
    assert_eq!(target.into_raw(), vec![100, 100, 100]);
}

#[test]
fn resize_single_rejects_zero_sizes() {
    let pipeline = ImagePipeline::new((1, 1), Braille, false);
    let source = ColorBuffer::from_raw(1, 1, vec![1, 2, 3]).expect("one pixel");
    for (width, height) in [(0u32, 1u32), (1, 0)] {
        let error = pipeline
            .resize_single(&source, width, height, Resampling::Nearest)
            .expect_err("no such target");
        assert_eq!(message(error), ERROR_DATA);
    }
    let empty = ColorBuffer::from_raw(0, 1, Vec::new()).expect("no pixel");
    let error = pipeline.resize_single(&empty, 1, 1, Resampling::Box).expect_err("no source");
    assert_eq!(message(error), ERROR_DATA);
}

#[test]
fn resampled_buffer_takes_bytes_of_the_right_length() {
    let buffer = resampled_buffer(2, 1, Ok(vec![1, 2, 3, 4, 5, 6])).expect("two pixels");
    assert_eq!((buffer.width(), buffer.height()), (2, 1));
    assert_eq!(buffer.into_raw(), vec![1, 2, 3, 4, 5, 6]);
}

#[test]
fn resampled_buffer_rejects_other_lengths() {
    for bytes in [vec![], vec![1, 2, 3], vec![0; 7]] {
        let error = resampled_buffer(2, 1, Ok(bytes)).expect_err("not two pixels");
        assert_eq!(message(error), ERROR_DATA);
    }
}

#[test]
fn resampled_buffer_wraps_the_failure() {
    let error = resampled_buffer(2, 1, Err(String::from("InvalidBufferSize")))
        .expect_err("a failure stays a failure");
    assert_eq!(message(error), format!("{}:{}", ERROR_RESIZE, "InvalidBufferSize"));
    let MyError::Pipeline(text) = resampled_buffer(1, 1, Err(String::new())).expect_err("failure");
    assert_eq!(text, "Error: Resize:");
}

fn checkerboard(width: u32, height: u32) -> LumaBuffer {
    let mut data = Vec::new();
    for y in 0..height {
        for x in 0..width {
            data.push(if (x + y) % 2 == 0 { 255 } else { 0 });
        }
    }
    LumaBuffer::from_raw(width, height, data).expect("one sample for each position")
}

#[test]
fn to_ascii_without_line_breaks_has_none() {
    let pipeline = ImagePipeline::new((4, 3), vec!['a', 'b'], false);
    let lines = pipeline.to_ascii(&checkerboard(4, 3));
    assert_eq!(lines, vec![String::from("baba"), String::from("abab"), String::from("baba")]);
    let text = lines.concat();
    assert!(!text.contains('\n'));
    assert!(!text.contains('\r'));
}

#[test]
fn to_ascii_with_line_breaks_has_one_between_rows() {
    for height in 1..6u32 {
        let pipeline = ImagePipeline::new((4, height), vec!['a', 'b'], true);
        let lines = pipeline.to_ascii(&checkerboard(4, height));
        assert_eq!(lines.len() as u32, height);
        for (row, line) in lines.iter().enumerate() {
            assert_eq!(line.ends_with("\n\r"), row as u32 + 1 < height);
        }
        let text = lines.concat();
        assert_eq!(text.matches("\n\r").count() as u32, height - 1);
        assert_eq!(text.chars().count() as u32, 4 * height + 2 * (height - 1));
        assert!(!text.ends_with('\r'));
    }
}

#[test]
fn to_ascii_line_break_is_line_feed_then_carriage_return() {
    let pipeline = ImagePipeline::new((1, 2), vec!['a', 'b'], true);
    let lines = pipeline.to_ascii(&checkerboard(1, 2));
    assert_eq!(lines, vec![String::from("b\n\r"), String::from("a")]);
}

#[test]
fn to_ascii_opens_every_line_with_the_prefix() {
    let pipeline = ImagePipeline::new((2, 2), TeletextMosaic, true);
    let buffer = LumaBuffer::from_raw(4, 6, vec![255; 24]).expect("24 samples");
    let lines = pipeline.to_ascii(&buffer);
    assert_eq!(
        lines,
        vec![String::from("\u{E017}\u{E07F}\u{E07F}\n\r"), String::from("\u{E017}\u{E07F}\u{E07F}")]
    );
    let chosen = ImagePipeline::new((2, 2), CharMaps::TeletextMosaic, false);
    assert_eq!(chosen.to_ascii(&buffer)[1], "\u{E017}\u{E07F}\u{E07F}");
}

#[test]
fn to_ascii_reads_one_block_for_each_cell() {
    let pipeline = ImagePipeline::new((2, 1), Mosaic, false);
    let data = vec![255, 0, 0, 255, 255, 0, 0, 255, 255, 0, 0, 255];
    let buffer = LumaBuffer::from_raw(4, 3, data).expect("twelve samples");
    assert_eq!(pipeline.to_ascii(&buffer), vec![String::from("\u{258C}\u{2590}")]);
    let braille = ImagePipeline::new((1, 2), Braille, false);
    let mut data = vec![255u8; 8];
    data.extend_from_slice(&[0; 8]);
    let buffer = LumaBuffer::from_raw(2, 8, data).expect("sixteen samples");
    assert_eq!(braille.to_ascii(&buffer), vec![String::from("\u{28FF}"), String::from("\u{2800}")]);
}

#[test]
fn to_ascii_of_empty_grid_is_empty() {
    let pipeline = ImagePipeline::new((3, 0), vec!['a'], true);
    let buffer = LumaBuffer::from_raw(3, 0, Vec::new()).expect("no sample");
    assert_eq!(pipeline.to_ascii(&buffer), Vec::<String>::new());
    let narrow = ImagePipeline::new((0, 2), Braille, true);
    let buffer = LumaBuffer::from_raw(0, 8, Vec::new()).expect("no sample");
    assert_eq!(narrow.to_ascii(&buffer), vec![String::from("\n\r"), String::new()]);
}

#[test]
fn data_error_reads_as_its_diagnostic() {
    assert_eq!(message(MyError::data()), "Data error");
    assert_eq!(ERROR_DATA, "Data error");
    assert_eq!(ERROR_RESIZE, "Error: Resize");
}
