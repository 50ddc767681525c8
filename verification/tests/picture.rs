use std::io::Cursor;

use vkit_viewport::picture::decode_picture;

fn encoded(width: u32, height: u32, rgba: Vec<u8>, format: image::ImageFormat) -> Vec<u8> {
    let picture = image::RgbaImage::from_raw(width, height, rgba).expect("the pixels fill the picture");
    let mut bytes = Cursor::new(Vec::new());
    picture.write_to(&mut bytes, format).expect("the encoder takes the picture");
    bytes.into_inner()
}

#[test]
fn a_png_reference_decodes_to_its_pixels_whatever_the_case_of_its_extension() {
    let pixels = vec![255, 0, 0, 255, 0, 128, 255, 64];
    let bytes = encoded(2, 1, pixels.clone(), image::ImageFormat::Png);
    for extension in ["png", "PNG", "Png", "apng"] {
        let picture = decode_picture(&bytes, extension).expect("a png decodes");
        assert_eq!((picture.width, picture.height), (2, 1));
        assert_eq!(picture.rgba, pixels);
    }
}

#[test]
fn a_bmp_reference_decodes_as_bmp() {
    let pixels = vec![10, 20, 30, 255, 40, 50, 60, 255, 70, 80, 90, 255, 1, 2, 3, 255];
    let bytes = encoded(2, 2, pixels.clone(), image::ImageFormat::Bmp);
    let picture = decode_picture(&bytes, "bmp").expect("a bmp decodes");
    assert_eq!((picture.width, picture.height), (2, 2));
    assert_eq!(picture.rgba, pixels);
}

#[test]
fn an_extension_outside_the_build_gives_no_picture() {
    let bytes = encoded(1, 1, vec![1, 2, 3, 255], image::ImageFormat::Png);
    assert!(decode_picture(&bytes, "gif").is_none());
    assert!(decode_picture(&bytes, "txt").is_none());
    assert!(decode_picture(&bytes, "").is_none());
}

#[test]
fn bytes_that_do_not_decode_give_no_picture() {
    assert!(decode_picture(&vec![0, 1, 2, 3, 4, 5], "png").is_none());
    let png = encoded(1, 1, vec![1, 2, 3, 255], image::ImageFormat::Png);
    assert!(decode_picture(&png, "jpg").is_none(), "the extension decides the decoder");
}
