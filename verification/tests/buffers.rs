use glyph_pipeline::pipeline::buffers::{ColorBuffer, LumaBuffer};

#[test]
fn luma_buffer_wants_one_sample_for_each_position() {
    assert!(LumaBuffer::from_raw(2, 3, vec![0; 6]).is_some());
    assert!(LumaBuffer::from_raw(2, 3, vec![0; 5]).is_none());
    assert!(LumaBuffer::from_raw(2, 3, vec![0; 7]).is_none());
    assert!(LumaBuffer::from_raw(0, 3, vec![]).is_some());
    assert!(LumaBuffer::from_raw(0, 0, vec![1]).is_none());
}

#[test]
fn luma_buffer_is_row_major() {
    let buffer = LumaBuffer::from_raw(3, 2, vec![10, 11, 12, 20, 21, 22]).expect("six samples");
    assert_eq!(buffer.width(), 3);
    assert_eq!(buffer.height(), 2);
    assert_eq!(buffer.get_pixel(0, 0), 10);
    assert_eq!(buffer.get_pixel(2, 0), 12);
    assert_eq!(buffer.get_pixel(0, 1), 20);
    assert_eq!(buffer.get_pixel(2, 1), 22);
    assert_eq!(buffer.as_raw(), &vec![10, 11, 12, 20, 21, 22]);
    assert_eq!(buffer.into_raw(), vec![10, 11, 12, 20, 21, 22]);
}

#[test]
fn block_counts_from_its_corner() {
    let buffer = LumaBuffer::from_raw(3, 3, vec![0, 1, 2, 10, 11, 12, 20, 21, 22])
        .expect("nine samples");
    let block = buffer.block(1, 1, 2, 2);
    assert_eq!(block.width(), 2);
    assert_eq!(block.height(), 2);
    assert_eq!(block.get_pixel(0, 0), 11);
    assert_eq!(block.get_pixel(1, 0), 12);
    assert_eq!(block.get_pixel(0, 1), 21);
    assert_eq!(block.get_pixel(1, 1), 22);
}

#[test]
fn color_buffer_wants_three_bytes_for_each_position() {
    assert!(ColorBuffer::from_raw(2, 2, vec![0; 12]).is_some());
    assert!(ColorBuffer::from_raw(2, 2, vec![0; 4]).is_none());
    assert!(ColorBuffer::from_raw(2, 2, vec![0; 13]).is_none());
    assert!(ColorBuffer::from_raw(5, 0, vec![]).is_some());
}

#[test]
fn color_buffer_is_row_major() {
    let data = vec![1, 2, 3, 4, 5, 6, 7, 8, 9, 10, 11, 12];
    let buffer = ColorBuffer::from_raw(2, 2, data.clone()).expect("twelve bytes");
    assert_eq!(buffer.width(), 2);
    assert_eq!(buffer.height(), 2);
    assert_eq!(buffer.get_pixel(0, 0), (1, 2, 3));
    assert_eq!(buffer.get_pixel(1, 0), (4, 5, 6));
    assert_eq!(buffer.get_pixel(0, 1), (7, 8, 9));
    assert_eq!(buffer.get_pixel(1, 1), (10, 11, 12));
    assert_eq!(buffer.as_raw(), &data);
    assert_eq!(buffer.into_raw(), data);
}

#[test]
fn luminance_weighs_the_channels() {
    let data = vec![255, 0, 0, 0, 255, 0, 0, 0, 255, 255, 255, 255, 0, 0, 0, 128, 128, 128];
    let buffer = ColorBuffer::from_raw(3, 2, data).expect("eighteen bytes");
    let luma = buffer.into_luma8();
    assert_eq!(luma.width(), 3);
    assert_eq!(luma.height(), 2);
    assert_eq!(luma.into_raw(), vec![54, 182, 18, 255, 0, 128]);
}

#[test]
fn luminance_of_no_pixel_is_no_sample() {
    for (width, height) in [(0u32, 0u32), (0, 7), (1_431_655_766, 0), (u32::MAX, 0)] {
        let buffer = ColorBuffer::from_raw(width, height, Vec::new()).expect("no pixel");
        let luma = buffer.into_luma8();
        assert_eq!((luma.width(), luma.height()), (width, height));
        assert_eq!(luma.into_raw(), Vec::<u8>::new());
    }
}

#[test]
fn luminance_follows_the_formula() {
    let mut data = Vec::new();
    let mut expected = Vec::new();
    for step in 0..64u32 {
        let (r, g, b) = ((step * 4) as u8, (255 - step * 3) as u8, (step * 37 % 256) as u8);
        data.push(r);
        data.push(g);
        data.push(b);
        expected.push(((2126 * r as u32 + 7152 * g as u32 + 722 * b as u32) / 10000) as u8);
    }
    let buffer = ColorBuffer::from_raw(8, 8, data).expect("64 pixels");
    assert_eq!(buffer.into_luma8().into_raw(), expected);
}
