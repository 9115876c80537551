use renderer::data::AttribFormat;
use renderer::data::VertexAttrib;
use renderer::gl::CameraMatrix;
use renderer::gl::Gl;
use renderer::gl::GlCall;
use renderer::gl::ARRAY_BUFFER;
use renderer::gl::BLEND;
use renderer::gl::COLOR_BUFFER_BIT;
use renderer::gl::ELEMENT_ARRAY_BUFFER;
use renderer::gl::FALSE;
use renderer::gl::FLOAT;
use renderer::gl::FRAMEBUFFER;
use renderer::gl::ONE_MINUS_SRC_ALPHA;
use renderer::gl::RGB;
use renderer::gl::RGB8;
use renderer::gl::SRC_ALPHA;
use renderer::gl::STATIC_DRAW;
use renderer::gl::TEXTURE_2D;
use renderer::gl::TRIANGLES;
use renderer::gl::UNSIGNED_BYTE;
use renderer::renderer::enable_blending;
use renderer::renderer::pos_color_uv_layout;
use renderer::renderer::pos_uv_layout;
use renderer::renderer::quad_indices;
use renderer::renderer::Scene;
use renderer::resources::Error;
use renderer::resources::Resources;
use renderer::shader::ShaderProgram;

fn smiley() -> Vec<u8> {
    let picture = image::RgbImage::from_raw(2, 2, vec![1, 2, 3, 4, 5, 6, 7, 8, 9, 10, 11, 12]);
    let mut out = std::io::Cursor::new(Vec::new());
    picture.unwrap().write_to(&mut out, image::ImageOutputFormat::Png).unwrap();
    out.into_inner()
}

fn assets() -> Resources {
    let mut res = Resources::new();
    res.insert("smiley.png", smiley());
    res
}

fn programs(gl: &mut Gl) -> (ShaderProgram, ShaderProgram) {
    let first = ShaderProgram::from_shaders(gl, &vec![]);
    let second = ShaderProgram::from_shaders(gl, &vec![]);
    gl.flush();
    (first, second)
}

fn built(gl: &mut Gl) -> Scene {
    let (first, second) = programs(gl);
    let scene = Scene::init(gl, &assets(), first, second, vec![1; 144], vec![2; 80], 1920, 1080);
    scene.ok().unwrap()
}

fn pointer(index: u32, size: i32, stride: i32, offset: usize) -> GlCall {
    GlCall::VertexAttribPointer {
        index,
        size,
        component_type: FLOAT,
        normalized: FALSE,
        stride,
        offset,
    }
}

#[test]
fn the_layouts_are_the_two_vertex_records() {
    assert_eq!(
        pos_color_uv_layout(),
        vec![
            VertexAttrib { location: 0, format: AttribFormat::Float32_32_32 },
            VertexAttrib { location: 1, format: AttribFormat::Float32_32_32_32 },
            VertexAttrib { location: 2, format: AttribFormat::Float32_32 },
        ]
    );
    assert_eq!(
        pos_uv_layout(),
        vec![
            VertexAttrib { location: 0, format: AttribFormat::Float32_32_32 },
            VertexAttrib { location: 1, format: AttribFormat::Float32_32 },
        ]
    );
    assert_eq!(renderer::data::stride_of(&pos_color_uv_layout()), Some(36));
    assert_eq!(renderer::data::stride_of(&pos_uv_layout()), Some(20));
    assert_eq!(quad_indices(), vec![1, 0, 2, 2, 3, 1]);
}

#[test]
fn blending_is_switched_on_with_alpha() {
    let mut gl = Gl::new();
    enable_blending(&mut gl);
    assert_eq!(
        gl.calls(),
        &vec![
            GlCall::Enable { cap: BLEND },
            GlCall::BlendFunc { sfactor: SRC_ALPHA, dfactor: ONE_MINUS_SRC_ALPHA },
        ]
    );
}

#[test]
fn the_scene_is_built_in_order() {
    let mut gl = Gl::new();
    let scene = built(&mut gl);
    assert_eq!(scene.shader_program.get_id(), 1);
    assert_eq!(scene.square_program.get_id(), 2);
    assert_eq!(scene.texture.get_id(), 6);
    assert_eq!(scene.texture.get_size(), (2, 2));
    assert_eq!(scene.frame_buffer.get_size(), (1920, 1080));
    assert_eq!(scene.perspective_loc, -1);
    assert_eq!(scene.view_loc, -1);
    assert_eq!(
        gl.blobs(),
        &vec![
            vec![1u8; 144],
            vec![1u8, 0, 2, 2, 3, 1],
            vec![1u8, 2, 3, 4, 5, 6, 7, 8, 9, 10, 11, 12],
            vec![2u8; 80],
        ]
    );
    let calls = gl.calls();
    assert_eq!(
        calls[..8].to_vec(),
        vec![
            GlCall::GenBuffer { name: 3 },
            GlCall::BindBuffer { target: ARRAY_BUFFER, name: 3 },
            GlCall::BufferData { target: ARRAY_BUFFER, blob: 0, usage: STATIC_DRAW },
            GlCall::BindBuffer { target: ARRAY_BUFFER, name: 0 },
            GlCall::GenBuffer { name: 4 },
            GlCall::BindBuffer { target: ELEMENT_ARRAY_BUFFER, name: 4 },
            GlCall::BufferData { target: ELEMENT_ARRAY_BUFFER, blob: 1, usage: STATIC_DRAW },
            GlCall::BindBuffer { target: ELEMENT_ARRAY_BUFFER, name: 0 },
        ]
    );
    assert_eq!(
        calls[8..19].to_vec(),
        vec![
            GlCall::GenVertexArray { name: 5 },
            GlCall::BindVertexArray { name: 5 },
            GlCall::BindBuffer { target: ARRAY_BUFFER, name: 3 },
            GlCall::BindBuffer { target: ELEMENT_ARRAY_BUFFER, name: 4 },
            GlCall::EnableVertexAttribArray { index: 0 },
            pointer(0, 3, 36, 0),
            GlCall::EnableVertexAttribArray { index: 1 },
            pointer(1, 4, 36, 12),
            GlCall::EnableVertexAttribArray { index: 2 },
            pointer(2, 2, 36, 28),
            GlCall::BindVertexArray { name: 0 },
        ]
    );
    assert_eq!(
        calls[19..24].to_vec(),
        vec![
            GlCall::GenTexture { name: 6 },
            GlCall::BindTexture { target: TEXTURE_2D, name: 6 },
            GlCall::TexImage2D {
                target: TEXTURE_2D,
                level: 0,
                internal_format: RGB8 as i32,
                width: 2,
                height: 2,
                border: 0,
                format: RGB,
                pixel_type: UNSIGNED_BYTE,
                pixels: Some(2)
            },
            GlCall::GenerateMipmap { target: TEXTURE_2D },
            GlCall::BindTexture { target: TEXTURE_2D, name: 0 },
        ]
    );
    assert_eq!(calls[24], GlCall::GenFramebuffer { name: 7 });
    assert_eq!(calls[26], GlCall::GenTexture { name: 8 });
    assert_eq!(
        calls[34..].to_vec(),
        vec![
            GlCall::GenBuffer { name: 9 },
            GlCall::BindBuffer { target: ARRAY_BUFFER, name: 9 },
            GlCall::BufferData { target: ARRAY_BUFFER, blob: 3, usage: STATIC_DRAW },
            GlCall::BindBuffer { target: ARRAY_BUFFER, name: 0 },
            GlCall::GenVertexArray { name: 10 },
            GlCall::BindVertexArray { name: 10 },
            GlCall::BindBuffer { target: ARRAY_BUFFER, name: 9 },
            GlCall::BindBuffer { target: ELEMENT_ARRAY_BUFFER, name: 4 },
            GlCall::EnableVertexAttribArray { index: 0 },
            pointer(0, 3, 20, 0),
            GlCall::EnableVertexAttribArray { index: 1 },
            pointer(1, 2, 20, 12),
            GlCall::BindVertexArray { name: 0 },
        ]
    );
}

#[test]
fn a_scene_without_its_image_releases_the_programs() {
    let mut gl = Gl::new();
    let (first, second) = programs(&mut gl);
    let res = Resources::new();
    let scene = Scene::init(&mut gl, &res, first, second, vec![], vec![], 10, 10);
    assert!(matches!(scene, Err(Error::NotFound)));
    assert_eq!(
        gl.calls(),
        &vec![GlCall::DeleteProgram { program: 2 }, GlCall::DeleteProgram { program: 1 }]
    );
    assert!(gl.blobs().is_empty());
    assert_eq!(gl.fresh_name(), 3);
}

#[test]
fn a_scene_with_a_broken_image_releases_the_programs() {
    let mut gl = Gl::new();
    let (first, second) = programs(&mut gl);
    let mut res = Resources::new();
    res.insert("smiley.png", vec![0; 16]);
    let scene = Scene::init(&mut gl, &res, first, second, vec![], vec![], 10, 10);
    assert!(matches!(scene, Err(Error::Decode)));
    assert_eq!(gl.calls().len(), 2);
}

#[test]
fn a_frame_is_two_passes() {
    let mut gl = Gl::new();
    let mut scene = built(&mut gl);
    scene.set_uniform_locations(4, 9);
    assert_eq!(scene.perspective_loc, 4);
    assert_eq!(scene.view_loc, 9);
    gl.flush();
    scene.draw(&mut gl);
    let clear = GlCall::Clear { mask: COLOR_BUFFER_BIT };
    let draw = GlCall::DrawElements { mode: TRIANGLES, count: 6, index_type: UNSIGNED_BYTE };
    assert_eq!(
        gl.calls(),
        &vec![
            GlCall::ClearColor { red: 80, green: 80, blue: 80 },
            GlCall::BindVertexArray { name: 5 },
            GlCall::BindTexture { target: TEXTURE_2D, name: 6 },
            GlCall::UseProgram { program: 1 },
            GlCall::UniformMatrix4 { location: 9, matrix: CameraMatrix::View },
            GlCall::UniformMatrix4 { location: 4, matrix: CameraMatrix::Projection },
            GlCall::BindFramebuffer { target: FRAMEBUFFER, name: 7 },
            clear,
            draw,
            GlCall::BindFramebuffer { target: FRAMEBUFFER, name: 0 },
            GlCall::ClearColor { red: 30, green: 30, blue: 30 },
            GlCall::BindVertexArray { name: 10 },
            GlCall::BindTexture { target: TEXTURE_2D, name: 8 },
            GlCall::UseProgram { program: 2 },
            clear,
            draw,
        ]
    );
    assert!(gl.blobs().is_empty());
}

#[test]
fn a_resize_sets_the_viewport_and_the_framebuffer() {
    let mut gl = Gl::new();
    let mut scene = built(&mut gl);
    gl.flush();
    scene.resize(&mut gl, 800, 600);
    assert_eq!(scene.frame_buffer.get_size(), (800, 600));
    assert_eq!(scene.texture.get_size(), (2, 2));
    assert_eq!(
        gl.calls(),
        &vec![
            GlCall::Viewport { x: 0, y: 0, width: 800, height: 600 },
            GlCall::BindTexture { target: TEXTURE_2D, name: 8 },
            GlCall::TexImage2D {
                target: TEXTURE_2D,
                level: 0,
                internal_format: RGB8 as i32,
                width: 800,
                height: 600,
                border: 0,
                format: RGB,
                pixel_type: UNSIGNED_BYTE,
                pixels: None
            },
            GlCall::BindTexture { target: TEXTURE_2D, name: 8 },
        ]
    );
}

#[test]
fn over_its_life_the_scene_releases_what_it_created() {
    let mut gl = Gl::new();
    let first = ShaderProgram::from_shaders(&mut gl, &vec![]);
    let second = ShaderProgram::from_shaders(&mut gl, &vec![]);
    let scene = Scene::init(&mut gl, &assets(), first, second, vec![], vec![], 64, 64);
    let mut scene = scene.ok().unwrap();
    scene.draw(&mut gl);
    scene.resize(&mut gl, 32, 32);
    scene.draw(&mut gl);
    scene.release(&mut gl);
    let created = gl.calls().iter().filter(|call| call.is_creation()).count();
    let deleted = gl.calls().iter().filter(|call| call.is_deletion()).count();
    assert_eq!(created, 10);
    assert_eq!(deleted, 10);
    let tail = gl.calls()[gl.calls().len() - 10..].to_vec();
    assert_eq!(
        tail,
        vec![
            GlCall::DeleteVertexArray { name: 10 },
            GlCall::DeleteBuffer { name: 9 },
            GlCall::DeleteFramebuffer { name: 7 },
            GlCall::DeleteTexture { name: 8 },
            GlCall::DeleteTexture { name: 6 },
            GlCall::DeleteVertexArray { name: 5 },
            GlCall::DeleteBuffer { name: 4 },
            GlCall::DeleteBuffer { name: 3 },
            GlCall::DeleteProgram { program: 2 },
            GlCall::DeleteProgram { program: 1 },
        ]
    );
}
