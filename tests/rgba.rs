use pager::{to_rgba, ImageBuffer, PagerError, Position};

fn png_gray(width: u32, height: u32, pixels: Vec<u8>) -> Vec<u8> {
    let img = image::GrayImage::from_raw(width, height, pixels).unwrap();
    let mut out = std::io::Cursor::new(Vec::new());
    img.write_to(&mut out, image::ImageOutputFormat::Png).unwrap();
    out.into_inner()
}

#[test]
fn gray_png_expands_to_rgba() {
    let bytes = png_gray(2, 1, vec![10, 200]);
    let img = to_rgba(&bytes, Position::Before).unwrap();
    assert_eq!((img.width(), img.height()), (2, 1));
    assert_eq!(img.pixels(), &[10, 10, 10, 255, 200, 200, 200, 255]);
}

#[test]
fn garbage_bytes_fail_to_decode() {
    assert_eq!(
        to_rgba(&[1, 2, 3, 4], Position::After).err(),
        Some(PagerError::Decode(Position::After))
    );
}

#[test]
fn buffer_size_must_match() {
    assert!(ImageBuffer::new(2, 2, vec![0; 16]).is_some());
    assert!(ImageBuffer::new(2, 2, vec![0; 15]).is_none());
    assert!(ImageBuffer::new(2, 2, vec![0; 12]).is_none());
    assert!(ImageBuffer::new(0, 5, vec![]).is_some());
}
