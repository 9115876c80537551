use glutin::event::ElementState;
use glutin::event::MouseButton;
use glutin::event::VirtualKeyCode;
use renderer::event::EventState;
use renderer::event::KeyCode;

#[test]
fn unseen_keys_are_released() {
    let state = EventState::new();
    assert!(!state.is_pressed(&KeyCode::A));
    assert!(!state.is_pressed(&KeyCode::MouseLeft));
    assert!(!state.is_pressed(&KeyCode::Other(0)));
    assert!(!state.is_pressed(&KeyCode::Error));
    assert!(state.is_released(&KeyCode::A));
    assert!(state.is_released(&KeyCode::Other(255)));
}

#[test]
fn press_then_release() {
    let mut state = EventState::new();
    state.process_event(KeyCode::W, ElementState::Pressed);
    assert!(state.is_pressed(&KeyCode::W));
    assert!(!state.is_released(&KeyCode::W));
    state.process_event(KeyCode::W, ElementState::Released);
    assert!(!state.is_pressed(&KeyCode::W));
    assert!(state.is_released(&KeyCode::W));
}

#[test]
fn a_press_touches_no_other_key() {
    let mut state = EventState::new();
    state.process_event(KeyCode::A, ElementState::Pressed);
    assert!(state.is_pressed(&KeyCode::A));
    assert!(!state.is_pressed(&KeyCode::B));
    assert!(!state.is_pressed(&KeyCode::MouseLeft));
    state.process_event(KeyCode::B, ElementState::Pressed);
    state.process_event(KeyCode::A, ElementState::Released);
    assert!(!state.is_pressed(&KeyCode::A));
    assert!(state.is_pressed(&KeyCode::B));
}

#[test]
fn pressing_twice_and_releasing_once_releases() {
    let mut state = EventState::new();
    state.process_event(KeyCode::Space, ElementState::Pressed);
    state.process_event(KeyCode::Space, ElementState::Pressed);
    assert!(state.is_pressed(&KeyCode::Space));
    state.process_event(KeyCode::Space, ElementState::Released);
    assert!(!state.is_pressed(&KeyCode::Space));
}

#[test]
fn releasing_an_unpressed_key_changes_nothing() {
    let mut state = EventState::new();
    state.process_event(KeyCode::D, ElementState::Pressed);
    state.process_event(KeyCode::S, ElementState::Released);
    assert!(state.is_pressed(&KeyCode::D));
    assert!(!state.is_pressed(&KeyCode::S));
}

#[test]
fn other_codes_are_kept_apart() {
    let mut state = EventState::new();
    state.process_event(KeyCode::Other(0), ElementState::Pressed);
    assert!(state.is_pressed(&KeyCode::Other(0)));
    assert!(!state.is_pressed(&KeyCode::Other(1)));
    assert!(!state.is_pressed(&KeyCode::MouseLeft));
    state.process_event(KeyCode::Other(34), ElementState::Pressed);
    assert!(!state.is_pressed(&KeyCode::Error));
    state.process_event(KeyCode::Other(255), ElementState::Pressed);
    assert!(state.is_pressed(&KeyCode::Other(255)));
    state.process_event(KeyCode::Other(0), ElementState::Released);
    assert!(!state.is_pressed(&KeyCode::Other(0)));
    assert!(state.is_pressed(&KeyCode::Other(34)));
}

#[test]
fn slots_are_as_documented() {
    assert_eq!(KeyCode::MouseLeft.slot_of(), 0);
    assert_eq!(KeyCode::MouseMiddle.slot_of(), 2);
    assert_eq!(KeyCode::A.slot_of(), 3);
    assert_eq!(KeyCode::Z.slot_of(), 28);
    assert_eq!(KeyCode::Space.slot_of(), 29);
    assert_eq!(KeyCode::RShift.slot_of(), 33);
    assert_eq!(KeyCode::Error.slot_of(), 34);
    assert_eq!(KeyCode::Other(0).slot_of(), 256);
    assert_eq!(KeyCode::Other(5).slot_of(), 261);
    assert_eq!(KeyCode::Other(255).slot_of(), 511);
}

#[test]
fn mouse_buttons_become_keys() {
    assert_eq!(KeyCode::from(MouseButton::Left), KeyCode::MouseLeft);
    assert_eq!(KeyCode::from(MouseButton::Right), KeyCode::MouseRight);
    assert_eq!(KeyCode::from(MouseButton::Middle), KeyCode::MouseMiddle);
    assert_eq!(KeyCode::from(MouseButton::Other(7)), KeyCode::Other(7));
    assert_eq!(KeyCode::from(MouseButton::Other(0)), KeyCode::Other(0));
}

#[test]
fn letters_become_keys() {
    assert_eq!(KeyCode::from(VirtualKeyCode::A), KeyCode::A);
    assert_eq!(KeyCode::from(VirtualKeyCode::B), KeyCode::B);
    assert_eq!(KeyCode::from(VirtualKeyCode::C), KeyCode::C);
    assert_eq!(KeyCode::from(VirtualKeyCode::D), KeyCode::D);
    assert_eq!(KeyCode::from(VirtualKeyCode::E), KeyCode::E);
    assert_eq!(KeyCode::from(VirtualKeyCode::F), KeyCode::F);
    assert_eq!(KeyCode::from(VirtualKeyCode::G), KeyCode::G);
    assert_eq!(KeyCode::from(VirtualKeyCode::H), KeyCode::H);
    assert_eq!(KeyCode::from(VirtualKeyCode::I), KeyCode::I);
    assert_eq!(KeyCode::from(VirtualKeyCode::J), KeyCode::J);
    assert_eq!(KeyCode::from(VirtualKeyCode::K), KeyCode::K);
    assert_eq!(KeyCode::from(VirtualKeyCode::L), KeyCode::L);
    assert_eq!(KeyCode::from(VirtualKeyCode::M), KeyCode::M);
    assert_eq!(KeyCode::from(VirtualKeyCode::N), KeyCode::N);
    assert_eq!(KeyCode::from(VirtualKeyCode::O), KeyCode::O);
    assert_eq!(KeyCode::from(VirtualKeyCode::P), KeyCode::P);
    assert_eq!(KeyCode::from(VirtualKeyCode::Q), KeyCode::Q);
    assert_eq!(KeyCode::from(VirtualKeyCode::R), KeyCode::R);
    assert_eq!(KeyCode::from(VirtualKeyCode::S), KeyCode::S);
    assert_eq!(KeyCode::from(VirtualKeyCode::T), KeyCode::T);
    assert_eq!(KeyCode::from(VirtualKeyCode::U), KeyCode::U);
    assert_eq!(KeyCode::from(VirtualKeyCode::V), KeyCode::V);
    assert_eq!(KeyCode::from(VirtualKeyCode::W), KeyCode::W);
    assert_eq!(KeyCode::from(VirtualKeyCode::X), KeyCode::X);
    assert_eq!(KeyCode::from(VirtualKeyCode::Y), KeyCode::Y);
    assert_eq!(KeyCode::from(VirtualKeyCode::Z), KeyCode::Z);
}

#[test]
fn space_and_modifiers_become_keys() {
    assert_eq!(KeyCode::from(VirtualKeyCode::Space), KeyCode::Space);
    assert_eq!(KeyCode::from(VirtualKeyCode::LControl), KeyCode::LControl);
    assert_eq!(KeyCode::from(VirtualKeyCode::LShift), KeyCode::LShift);
    assert_eq!(KeyCode::from(VirtualKeyCode::RControl), KeyCode::RControl);
    assert_eq!(KeyCode::from(VirtualKeyCode::RShift), KeyCode::RShift);
}

#[test]
fn unmapped_keys_fall_back_to_error() {
    assert_eq!(KeyCode::from(VirtualKeyCode::Escape), KeyCode::Error);
    assert_eq!(KeyCode::from(VirtualKeyCode::Key1), KeyCode::Error);
    assert_eq!(KeyCode::from(VirtualKeyCode::F1), KeyCode::Error);
    assert_eq!(KeyCode::from(VirtualKeyCode::LAlt), KeyCode::Error);
    assert_eq!(KeyCode::from(VirtualKeyCode::Return), KeyCode::Error);
    assert_eq!(KeyCode::from(VirtualKeyCode::Cut), KeyCode::Error);
}
