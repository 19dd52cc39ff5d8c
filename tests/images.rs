use image::GenericImageView;
use nas_game::cover::prepare_cover;
use nas_game::error::NasError;
use nas_game::transcode::{is_transcodable, output_file_name, transcode_inputs, TARGET_HEIGHT, TARGET_WIDTH};

#[test]
fn only_allowlisted_files_are_transcoded() {
    let files: Vec<String> = vec!["cover.png".to_string(), "notes.txt".to_string()];
    let inputs = transcode_inputs(&files);
    assert_eq!(inputs, vec!["cover.png".to_string()]);
    let outputs: Vec<String> = inputs.iter().map(|f| output_file_name(f)).collect();
    assert_eq!(outputs, vec!["cover.webp".to_string()]);
}

#[test]
fn allowlist() {
    assert!(is_transcodable("a.png"));
    assert!(is_transcodable("a.jpg"));
    assert!(is_transcodable("a.webp"));
    assert!(!is_transcodable("a.jpeg"));
    assert!(!is_transcodable("a.PNG"));
    assert!(!is_transcodable(".png"));
    assert!(!is_transcodable("png"));
}

#[test]
fn output_names() {
    assert_eq!(output_file_name("celeste.png"), "celeste.webp");
    assert_eq!(output_file_name("a.b.jpg"), "a.b.webp");
    assert_eq!(output_file_name(".hidden"), ".hidden.webp");
    assert_eq!(output_file_name(""), "fail.webp");
}

#[test]
fn batch_target_size() {
    assert_eq!((TARGET_WIDTH, TARGET_HEIGHT), (308, 461));
}

#[test]
fn unreadable_bytes_fail_to_read() {
    let r = prepare_cover(&vec![1, 2, 3, 4], Some((10, 10)));
    assert!(matches!(r, Err(NasError::FailedToReadFile)));
    let e = prepare_cover(&Vec::new(), None);
    assert!(matches!(e, Err(NasError::FailedToReadFile)));
}

fn png_bytes(w: u32, h: u32) -> Vec<u8> {
    let img = image::DynamicImage::ImageRgb8(image::RgbImage::new(w, h));
    let mut out = std::io::Cursor::new(Vec::new());
    img.write_to(&mut out, image::ImageOutputFormat::Png).unwrap();
    out.into_inner()
}

#[test]
fn explicit_target_size_is_exact() {
    let (img, w, h) = match prepare_cover(&png_bytes(3, 7), Some((10, 4))) {
        Ok(r) => r,
        Err(_) => panic!("a valid png must decode"),
    };
    assert_eq!((w, h), (10, 4));
    assert_eq!(img.dimensions(), (10, 4));
}

#[test]
fn no_target_keeps_the_size() {
    let (img, w, h) = match prepare_cover(&png_bytes(5, 2), None) {
        Ok(r) => r,
        Err(_) => panic!("a valid png must decode"),
    };
    assert_eq!((w, h), (5, 2));
    assert_eq!(img.dimensions(), (5, 2));
    assert!(img.as_rgba8().is_some());
}
