use helium_updater::icon::load_window_icon;
use image::codecs::jpeg::JpegEncoder;
use image::{ExtendedColorType, ImageEncoder};

#[test]
fn icon_decodes_a_jpeg() {
    let pixels: Vec<u8> = (0..(2 * 3 * 3)).map(|i| (i * 10) as u8).collect();
    let mut bytes = Vec::new();
    JpegEncoder::new_with_quality(&mut bytes, 90)
        .write_image(&pixels, 2, 3, ExtendedColorType::Rgb8)
        .unwrap();
    let icon = load_window_icon(&bytes).unwrap();
    assert_eq!(icon.width, 2);
    assert_eq!(icon.height, 3);
    assert_eq!(icon.rgba.len(), 2 * 3 * 4);
    assert!(icon.rgba.chunks(4).all(|p| p[3] == 255));
}

#[test]
fn icon_refuses_garbage() {
    assert!(load_window_icon(b"not a picture").is_none());
    assert!(load_window_icon(&[]).is_none());
}
