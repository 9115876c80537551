use renderer::gl::Gl;
use renderer::gl::GlCall;
use renderer::gl::LINEAR;
use renderer::gl::RGB;
use renderer::gl::RGB8;
use renderer::gl::TEXTURE_2D;
use renderer::gl::TEXTURE_MAG_FILTER;
use renderer::gl::TEXTURE_MIN_FILTER;
use renderer::gl::UNSIGNED_BYTE;
use renderer::resources::Error;
use renderer::resources::Resources;
use renderer::texture::tex_image;
use renderer::texture::Texture;

fn png_of(width: u32, height: u32, pixels: Vec<u8>) -> Vec<u8> {
    let picture = image::RgbImage::from_raw(width, height, pixels).unwrap();
    let mut out = std::io::Cursor::new(Vec::new());
    picture.write_to(&mut out, image::ImageOutputFormat::Png).unwrap();
    out.into_inner()
}

fn storage(width: i32, height: i32, pixels: Option<usize>) -> GlCall {
    GlCall::TexImage2D {
        target: TEXTURE_2D,
        level: 0,
        internal_format: RGB8 as i32,
        width,
        height,
        border: 0,
        format: RGB,
        pixel_type: UNSIGNED_BYTE,
        pixels,
    }
}

#[test]
fn storage_call_is_rgb_bytes() {
    assert_eq!(tex_image(640, 480, None), storage(640, 480, None));
    assert_eq!(tex_image(1, 2, Some(3)), storage(1, 2, Some(3)));
    assert_eq!(RGB8, 0x8051);
    assert_eq!(RGB, 0x1907);
}

#[test]
fn sizes_beyond_the_signed_range_wrap() {
    assert_eq!(tex_image(0x8000_0000, u32::MAX, None), storage(i32::MIN, -1, None));
    assert_eq!(tex_image(0x7FFF_FFFF, 0, None), storage(i32::MAX, 0, None));
}

#[test]
fn empty_texture_issues_its_calls() {
    let mut gl = Gl::new();
    let texture = Texture::empty(&mut gl, 320, 200);
    assert_eq!(texture.get_id(), 1);
    assert_eq!(texture.get_size(), (320, 200));
    assert_eq!(
        gl.calls(),
        &vec![
            GlCall::GenTexture { name: 1 },
            GlCall::BindTexture { target: TEXTURE_2D, name: 1 },
            storage(320, 200, None),
            GlCall::TexParameteri {
                target: TEXTURE_2D,
                pname: TEXTURE_MIN_FILTER,
                param: LINEAR as i32
            },
            GlCall::TexParameteri {
                target: TEXTURE_2D,
                pname: TEXTURE_MAG_FILTER,
                param: LINEAR as i32
            },
            GlCall::BindTexture { target: TEXTURE_2D, name: 0 },
        ]
    );
    assert!(gl.blobs().is_empty());
}

#[test]
fn texture_binds_unbinds_and_deletes() {
    let mut gl = Gl::new();
    gl.fresh_name();
    let texture = Texture::empty(&mut gl, 1, 1);
    gl.flush();
    texture.bind(&mut gl);
    texture.unbind(&mut gl);
    texture.delete(&mut gl);
    assert_eq!(
        gl.calls(),
        &vec![
            GlCall::BindTexture { target: TEXTURE_2D, name: 2 },
            GlCall::BindTexture { target: TEXTURE_2D, name: 0 },
            GlCall::DeleteTexture { name: 2 },
        ]
    );
}

#[test]
fn resizing_a_texture_changes_the_reported_size() {
    let mut gl = Gl::new();
    let mut texture = Texture::empty(&mut gl, 1920, 1080);
    gl.flush();
    texture.resize(&mut gl, 1280, 720);
    assert_eq!(texture.get_size(), (1280, 720));
    assert_eq!(texture.get_id(), 1);
    assert_eq!(
        gl.calls(),
        &vec![
            GlCall::BindTexture { target: TEXTURE_2D, name: 1 },
            storage(1280, 720, None),
            GlCall::BindTexture { target: TEXTURE_2D, name: 1 },
        ]
    );
    assert!(gl.calls().iter().all(|call| !call.is_creation() && !call.is_deletion()));
}

#[test]
fn texture_from_pixels_uploads_them() {
    let mut gl = Gl::new();
    gl.stage(vec![0]);
    let texture = Texture::from_pixels(&mut gl, 2, 1, vec![1, 2, 3, 4, 5, 6]);
    assert_eq!(texture.get_size(), (2, 1));
    assert_eq!(
        gl.calls(),
        &vec![
            GlCall::GenTexture { name: 1 },
            GlCall::BindTexture { target: TEXTURE_2D, name: 1 },
            storage(2, 1, Some(1)),
            GlCall::GenerateMipmap { target: TEXTURE_2D },
            GlCall::BindTexture { target: TEXTURE_2D, name: 0 },
        ]
    );
    assert_eq!(gl.blobs()[1], vec![1u8, 2, 3, 4, 5, 6]);
}

#[test]
fn texture_from_a_png_asset() {
    let pixels: Vec<u8> = vec![255, 0, 0, 0, 255, 0, 0, 0, 255, 10, 20, 30, 40, 50, 60, 70, 80, 90];
    let file = png_of(3, 2, pixels.clone());
    assert_ne!(file, pixels);
    let mut res = Resources::new();
    res.insert("smiley.png", file);
    let mut gl = Gl::new();
    let texture = Texture::from_resource(&mut gl, &res, "smiley.png").unwrap();
    assert_eq!(texture.get_size(), (3, 2));
    assert_eq!(texture.get_id(), 1);
    assert_eq!(gl.blobs(), &vec![pixels]);
    assert_eq!(
        gl.calls(),
        &vec![
            GlCall::GenTexture { name: 1 },
            GlCall::BindTexture { target: TEXTURE_2D, name: 1 },
            storage(3, 2, Some(0)),
            GlCall::GenerateMipmap { target: TEXTURE_2D },
            GlCall::BindTexture { target: TEXTURE_2D, name: 0 },
        ]
    );
}

#[test]
fn texture_from_a_missing_asset_creates_nothing() {
    let res = Resources::new();
    let mut gl = Gl::new();
    let outcome = Texture::from_resource(&mut gl, &res, "smiley.png");
    assert!(matches!(outcome, Err(Error::NotFound)));
    assert!(gl.calls().is_empty());
    assert!(gl.blobs().is_empty());
    assert_eq!(gl.fresh_name(), 1);
}

#[test]
fn texture_from_bytes_that_are_no_image_creates_nothing() {
    let mut res = Resources::new();
    res.insert("smiley.png", vec![1, 2, 3, 4, 5, 6, 7, 8, 9]);
    let mut gl = Gl::new();
    let outcome = Texture::from_resource(&mut gl, &res, "smiley.png");
    assert!(matches!(outcome, Err(Error::Decode)));
    assert!(gl.calls().is_empty());
    assert!(gl.blobs().is_empty());
    assert_eq!(gl.fresh_name(), 1);
}
