use glutin::event::ElementState;
use glutin::event::MouseButton;
use glutin::event::VirtualKeyCode;
use renderer::event::KeyCode;
use renderer::gl::Gl;
use renderer::gl::GlCall;
use renderer::playground::Input;
use renderer::playground::Moves;
use renderer::playground::Phase;
use renderer::playground::Playground;
use renderer::playground::Reaction;
use renderer::renderer::Scene;
use renderer::resources::Resources;
use renderer::shader::ShaderProgram;

const STILL: Moves = Moves { left: false, right: false, forward: false, back: false };

fn scene(gl: &mut Gl) -> Scene {
    let picture = image::RgbImage::from_raw(1, 1, vec![1, 2, 3]).unwrap();
    let mut out = std::io::Cursor::new(Vec::new());
    picture.write_to(&mut out, image::ImageOutputFormat::Png).unwrap();
    let mut res = Resources::new();
    res.insert("smiley.png", out.into_inner());
    let first = ShaderProgram::from_shaders(gl, &vec![]);
    let second = ShaderProgram::from_shaders(gl, &vec![]);
    let scene = Scene::init(gl, &res, first, second, vec![], vec![], 100, 100).ok().unwrap();
    gl.flush();
    scene
}

fn running() -> (Playground, Gl, Scene) {
    let mut gl = Gl::new();
    let scene = scene(&mut gl);
    let mut playground = Playground::new();
    playground.start();
    (playground, gl, scene)
}

fn key(key: VirtualKeyCode, state: ElementState) -> Input {
    Input::Keyboard { key, state }
}

fn mouse(button: MouseButton, state: ElementState) -> Input {
    Input::Mouse { button, state }
}

#[test]
fn the_loop_starts_in_init_and_runs_once_started() {
    let mut playground = Playground::new();
    assert_eq!(playground.phase(), Phase::Init);
    playground.start();
    assert_eq!(playground.phase(), Phase::Running);
    playground.start();
    assert_eq!(playground.phase(), Phase::Running);
}

#[test]
fn before_the_start_events_are_not_taken() {
    let mut gl = Gl::new();
    let mut scene = scene(&mut gl);
    let mut playground = Playground::new();
    let pressed = key(VirtualKeyCode::A, ElementState::Pressed);
    assert_eq!(playground.step(&mut gl, &mut scene, pressed), Reaction::Nothing);
    assert_eq!(playground.step(&mut gl, &mut scene, Input::CloseRequested), Reaction::Nothing);
    assert_eq!(playground.step(&mut gl, &mut scene, Input::RedrawRequested), Reaction::Nothing);
    assert_eq!(playground.phase(), Phase::Init);
    assert!(!playground.is_pressed(&KeyCode::A));
    assert!(gl.calls().is_empty());
}

#[test]
fn a_close_request_ends_the_loop() {
    let (mut playground, mut gl, mut scene) = running();
    assert_eq!(playground.step(&mut gl, &mut scene, Input::CloseRequested), Reaction::Exit);
    assert_eq!(playground.phase(), Phase::Exiting);
    assert!(gl.calls().is_empty());
}

#[test]
fn the_escape_key_ends_the_loop() {
    let (mut playground, mut gl, mut scene) = running();
    let released = key(VirtualKeyCode::Escape, ElementState::Released);
    assert_eq!(playground.step(&mut gl, &mut scene, released), Reaction::Nothing);
    assert_eq!(playground.phase(), Phase::Running);
    let pressed = key(VirtualKeyCode::Escape, ElementState::Pressed);
    assert_eq!(playground.step(&mut gl, &mut scene, pressed), Reaction::Exit);
    assert_eq!(playground.phase(), Phase::Exiting);
}

#[test]
fn after_the_end_events_are_not_taken() {
    let (mut playground, mut gl, mut scene) = running();
    playground.step(&mut gl, &mut scene, Input::CloseRequested);
    let pressed = key(VirtualKeyCode::W, ElementState::Pressed);
    assert_eq!(playground.step(&mut gl, &mut scene, pressed), Reaction::Nothing);
    assert!(!playground.is_pressed(&KeyCode::W));
    assert_eq!(playground.step(&mut gl, &mut scene, Input::RedrawRequested), Reaction::Nothing);
    let resized = Input::Resized { width: 5, height: 5 };
    assert_eq!(playground.step(&mut gl, &mut scene, resized), Reaction::Nothing);
    assert_eq!(scene.frame_buffer.get_size(), (100, 100));
    playground.start();
    assert_eq!(playground.phase(), Phase::Exiting);
    assert!(gl.calls().is_empty());
}

#[test]
fn keys_are_filed_and_steer_the_camera() {
    let (mut playground, mut gl, mut scene) = running();
    assert_eq!(
        playground.step(&mut gl, &mut scene, Input::RedrawRequested),
        Reaction::Redraw { moves: STILL }
    );
    playground.step(&mut gl, &mut scene, key(VirtualKeyCode::A, ElementState::Pressed));
    playground.step(&mut gl, &mut scene, key(VirtualKeyCode::W, ElementState::Pressed));
    assert!(playground.is_pressed(&KeyCode::A));
    assert_eq!(
        playground.step(&mut gl, &mut scene, Input::RedrawRequested),
        Reaction::Redraw { moves: Moves { left: true, right: false, forward: true, back: false } }
    );
    playground.step(&mut gl, &mut scene, key(VirtualKeyCode::A, ElementState::Released));
    playground.step(&mut gl, &mut scene, key(VirtualKeyCode::D, ElementState::Pressed));
    playground.step(&mut gl, &mut scene, key(VirtualKeyCode::S, ElementState::Pressed));
    assert_eq!(
        playground.step(&mut gl, &mut scene, Input::RedrawRequested),
        Reaction::Redraw { moves: Moves { left: false, right: true, forward: true, back: true } }
    );
}

#[test]
fn a_redraw_issues_the_calls_of_a_frame() {
    let (mut playground, mut gl, mut scene) = running();
    playground.step(&mut gl, &mut scene, Input::RedrawRequested);
    let stepped = gl.flush().0;
    scene.draw(&mut gl);
    assert_eq!(&stepped, gl.calls());
    assert_eq!(stepped.len(), 16);
}

#[test]
fn a_resize_reaches_the_scene_and_the_caller() {
    let (mut playground, mut gl, mut scene) = running();
    let resized = Input::Resized { width: 640, height: 480 };
    assert_eq!(
        playground.step(&mut gl, &mut scene, resized),
        Reaction::Resized { width: 640, height: 480 }
    );
    assert_eq!(scene.frame_buffer.get_size(), (640, 480));
    assert_eq!(gl.calls()[0], GlCall::Viewport { x: 0, y: 0, width: 640, height: 480 });
    assert_eq!(gl.calls().len(), 4);
}

#[test]
fn a_drag_anchors_then_rotates() {
    let (mut playground, mut gl, mut scene) = running();
    let moved = Input::CursorMoved { at_origin: false };
    assert_eq!(playground.step(&mut gl, &mut scene, moved), Reaction::Nothing);
    let pressed = mouse(MouseButton::Left, ElementState::Pressed);
    assert_eq!(playground.step(&mut gl, &mut scene, pressed), Reaction::Nothing);
    assert!(playground.is_pressed(&KeyCode::MouseLeft));
    assert_eq!(playground.step(&mut gl, &mut scene, moved), Reaction::Anchor);
    assert_eq!(playground.step(&mut gl, &mut scene, moved), Reaction::Rotate);
    assert_eq!(playground.step(&mut gl, &mut scene, moved), Reaction::Rotate);
    let released = mouse(MouseButton::Left, ElementState::Released);
    assert_eq!(playground.step(&mut gl, &mut scene, released), Reaction::ReleaseAnchor);
    assert!(!playground.is_pressed(&KeyCode::MouseLeft));
    assert_eq!(playground.step(&mut gl, &mut scene, moved), Reaction::Nothing);
    playground.step(&mut gl, &mut scene, pressed);
    assert_eq!(playground.step(&mut gl, &mut scene, moved), Reaction::Anchor);
    assert!(gl.calls().is_empty());
}

#[test]
fn a_cursor_at_the_origin_leaves_the_drag_unanchored() {
    let (mut playground, mut gl, mut scene) = running();
    playground.step(&mut gl, &mut scene, mouse(MouseButton::Left, ElementState::Pressed));
    let origin = Input::CursorMoved { at_origin: true };
    let away = Input::CursorMoved { at_origin: false };
    assert_eq!(playground.step(&mut gl, &mut scene, origin), Reaction::Anchor);
    assert_eq!(playground.step(&mut gl, &mut scene, away), Reaction::Anchor);
    assert_eq!(playground.step(&mut gl, &mut scene, origin), Reaction::Rotate);
    assert_eq!(playground.step(&mut gl, &mut scene, away), Reaction::Anchor);
}

#[test]
fn other_buttons_are_filed_but_start_no_drag() {
    let (mut playground, mut gl, mut scene) = running();
    let pressed = mouse(MouseButton::Right, ElementState::Pressed);
    assert_eq!(playground.step(&mut gl, &mut scene, pressed), Reaction::Nothing);
    assert!(playground.is_pressed(&KeyCode::MouseRight));
    let moved = Input::CursorMoved { at_origin: false };
    assert_eq!(playground.step(&mut gl, &mut scene, moved), Reaction::Nothing);
    playground.step(&mut gl, &mut scene, mouse(MouseButton::Other(9), ElementState::Pressed));
    assert!(playground.is_pressed(&KeyCode::Other(9)));
    let released = mouse(MouseButton::Right, ElementState::Released);
    assert_eq!(playground.step(&mut gl, &mut scene, released), Reaction::Nothing);
    assert!(!playground.is_pressed(&KeyCode::MouseRight));
}

#[test]
fn other_events_do_nothing() {
    let (mut playground, mut gl, mut scene) = running();
    assert_eq!(playground.step(&mut gl, &mut scene, Input::Other), Reaction::Nothing);
    assert_eq!(playground.phase(), Phase::Running);
    assert!(gl.calls().is_empty());
}
