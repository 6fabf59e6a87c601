use image::{ImageBuffer, ImageOutputFormat, Rgba};
use renderer::img::decode_rgba;
use std::io::Cursor;

#[test]
fn decode_rgba_reads_back_the_encoded_pixels() {
    // Encode a 2x1 image with distinct pixels through the image crate, then
    // decode it through the library and compare the raw pixels.
    let mut img = ImageBuffer::new(2, 1);
    img.put_pixel(0, 0, Rgba([10u8, 20, 30, 255]));
    img.put_pixel(1, 0, Rgba([40u8, 50, 60, 255]));
    let mut png = Cursor::new(Vec::new());
    image::DynamicImage::ImageRgba8(img)
        .write_to(&mut png, ImageOutputFormat::Png)
        .unwrap();
    let decoded = decode_rgba(png.get_ref()).unwrap();
    assert_eq!((decoded.width, decoded.height), (2, 1));
    assert_eq!(decoded.pixels, vec![10, 20, 30, 255, 40, 50, 60, 255]);
}

#[test]
fn garbage_bytes_fail_to_decode_with_a_message() {
    let err = decode_rgba(&[1, 2, 3, 4]).unwrap_err();
    assert!(!err.message.is_empty());
}
