use renderer::resources::has_zero_byte;
use renderer::resources::Error;
use renderer::resources::Resources;

fn small_png() -> Vec<u8> {
    let picture = image::RgbImage::from_raw(1, 2, vec![9, 8, 7, 6, 5, 4]).unwrap();
    let mut out = std::io::Cursor::new(Vec::new());
    picture.write_to(&mut out, image::ImageOutputFormat::Png).unwrap();
    out.into_inner()
}

#[test]
fn nothing_is_found_in_empty_resources() {
    let res = Resources::new();
    assert!(res.find("a").is_none());
    assert!(res.find("").is_none());
    assert_eq!(res.load_cstring("a"), Err(Error::NotFound));
    assert!(matches!(res.load_rgb_image("a"), Err(Error::NotFound)));
}

#[test]
fn assets_are_found_by_their_exact_name() {
    let mut res = Resources::new();
    res.insert("shaders/test.vert", vec![1, 2]);
    res.insert("shaders/test.frag", vec![3]);
    assert_eq!(res.find("shaders/test.vert"), Some(&vec![1u8, 2]));
    assert_eq!(res.find("shaders/test.frag"), Some(&vec![3u8]));
    assert_eq!(res.find("shaders/test"), None);
    assert_eq!(res.find("shaders/test.vert "), None);
    assert_eq!(res.find("test.vert"), None);
}

#[test]
fn the_last_asset_of_a_name_wins() {
    let mut res = Resources::new();
    res.insert("a", vec![1]);
    res.insert("b", vec![2]);
    res.insert("a", vec![3]);
    assert_eq!(res.find("a"), Some(&vec![3u8]));
    assert_eq!(res.find("b"), Some(&vec![2u8]));
}

#[test]
fn text_is_loaded_as_its_bytes() {
    let mut res = Resources::new();
    res.insert("hello", b"void main() {}".to_vec());
    res.insert("empty", vec![]);
    assert_eq!(res.load_cstring("hello"), Ok(b"void main() {}".to_vec()));
    assert_eq!(res.load_cstring("empty"), Ok(vec![]));
}

#[test]
fn text_with_a_zero_byte_is_refused() {
    let mut res = Resources::new();
    res.insert("first", vec![0, 1, 2]);
    res.insert("middle", vec![1, 0, 2]);
    res.insert("last", vec![1, 2, 0]);
    assert_eq!(res.load_cstring("first"), Err(Error::Decode));
    assert_eq!(res.load_cstring("middle"), Err(Error::Decode));
    assert_eq!(res.load_cstring("last"), Err(Error::Decode));
}

#[test]
fn zero_bytes_are_detected() {
    assert!(!has_zero_byte(&vec![]));
    assert!(!has_zero_byte(&vec![1, 2, 255]));
    assert!(has_zero_byte(&vec![0]));
    assert!(has_zero_byte(&vec![7, 7, 0, 7]));
}

#[test]
fn an_image_is_decoded_to_rgb() {
    let mut res = Resources::new();
    let file = small_png();
    res.insert("pic", file.clone());
    let picture = res.load_rgb_image("pic").unwrap();
    assert_eq!(picture.width, 1);
    assert_eq!(picture.height, 2);
    assert_eq!(picture.pixels, vec![9, 8, 7, 6, 5, 4]);
    assert_ne!(picture.pixels, file);
}

#[test]
fn bytes_that_are_no_image_are_refused() {
    let mut res = Resources::new();
    res.insert("text", b"not an image at all".to_vec());
    res.insert("empty", vec![]);
    let mut cut = small_png();
    cut.truncate(20);
    res.insert("cut", cut);
    assert!(matches!(res.load_rgb_image("text"), Err(Error::Decode)));
    assert!(matches!(res.load_rgb_image("empty"), Err(Error::Decode)));
    assert!(matches!(res.load_rgb_image("cut"), Err(Error::Decode)));
}

#[test]
fn a_decoder_error_becomes_a_decode_error() {
    let failed = image::load_from_memory(&[1, 2, 3]).map(|_| renderer::resources::RgbImage {
        width: 0,
        height: 0,
        pixels: vec![],
    });
    assert!(failed.is_err());
    assert!(matches!(Resources::image_from(failed), Err(Error::Decode)));
    let fine = Ok(renderer::resources::RgbImage { width: 1, height: 1, pixels: vec![1, 2, 3] });
    let kept = Resources::image_from(fine).unwrap();
    assert_eq!((kept.width, kept.height, kept.pixels), (1, 1, vec![1, 2, 3]));
}
