//! The frame loop as a state machine: what each window event does to the
//! input state, which calls it issues, and what it leaves for the caller, who
//! owns the window and the camera, to do.

use crate::event::after_event;
use crate::event::key_of_mouse_button;
use crate::event::key_of_virtual_key;
use crate::event::EventState;
use crate::event::KeyCode;
use crate::gl::Gl;
use crate::gl::GlCall;
use crate::renderer::Scene;
use glutin::event::ElementState;
use glutin::event::MouseButton;
use glutin::event::VirtualKeyCode;
use vstd::prelude::*;

verus! {

/// Where the loop stands.
#[derive(Debug, Clone, Copy, PartialEq, Eq, Structural)]
pub enum Phase {
    /// The scene is being built; no event is taken yet.
    Init,
    /// Events are taken and frames are drawn.
    Running,
    /// The loop has been told to end; no event is taken any more.
    Exiting,
}

/// A window event, reduced to what the loop reads of it.
#[derive(Debug, Clone, Copy)]
pub enum Input {
    Resized { width: u32, height: u32 },
    CloseRequested,
    Keyboard { key: VirtualKeyCode, state: ElementState },
    Mouse { button: MouseButton, state: ElementState },
    /// The cursor moved; `at_origin` tells whether it now stands at the
    /// window's origin, the position that counts as "no anchor".
    CursorMoved { at_origin: bool },
    RedrawRequested,
    /// Any other event.
    Other,
}

/// The directions in which the camera is to move before a frame.
#[derive(Debug, Clone, Copy, PartialEq, Eq, Structural)]
pub struct Moves {
    /// `A` is held: along the negative x axis.
    pub left: bool,
    /// `D` is held: along the positive x axis.
    pub right: bool,
    /// `W` is held: along the negative z axis.
    pub forward: bool,
    /// `S` is held: along the positive z axis.
    pub back: bool,
}

/// What is left for the caller to do after an event.
#[derive(Debug, Clone, Copy, PartialEq, Eq, Structural)]
pub enum Reaction {
    /// Nothing is left to do.
    Nothing,
    /// Resize the window's surface and set the camera's aspect ratio.
    Resized { width: u32, height: u32 },
    /// End the loop.
    Exit,
    /// Take the cursor's position as the anchor of the drag.
    Anchor,
    /// Rotate the camera by the cursor's way from the anchor, then take the
    /// cursor's position as the new anchor.
    Rotate,
    /// Put the anchor back to the window's origin.
    ReleaseAnchor,
    /// Move the camera as told, hand the calls of the frame to the driver,
    /// swap the buffers and ask for the next redraw.
    Redraw { moves: Moves },
}

/// The state of the loop as contracts see it.
pub struct LoopState {
    pub phase: Phase,
    /// The keys that are pressed.
    pub keys: Set<KeyCode>,
    /// Whether the left mouse button is held.
    pub left_pressed: bool,
    /// Whether a drag has an anchor other than the window's origin.
    pub anchored: bool,
}

/// Whether the event is a press of the escape key.
pub open spec fn is_escape_press(input: Input) -> bool {
    input matches Input::Keyboard { key, state } && key == VirtualKeyCode::Escape && state
        == ElementState::Pressed
}

/// The moves that the held keys ask for.
pub open spec fn moves_of(keys: Set<KeyCode>) -> Moves {
    Moves {
        left: keys.contains(KeyCode::A),
        right: keys.contains(KeyCode::D),
        forward: keys.contains(KeyCode::W),
        back: keys.contains(KeyCode::S),
    }
}

/// The state after an event. Outside the running phase nothing changes. A
/// close request and a press of the escape key end the loop; key and button
/// events are filed; the left button starts a drag when pressed and ends it,
/// anchor and all, when released; a cursor move during a drag leaves the
/// anchor at the cursor.
pub open spec fn next_state(state: LoopState, input: Input) -> LoopState {
    if state.phase != Phase::Running {
        state
    } else {
        match input {
            Input::CloseRequested => LoopState { phase: Phase::Exiting, ..state },
            Input::Keyboard { key, state: element } => LoopState {
                phase: if is_escape_press(input) {
                    Phase::Exiting
                } else {
                    Phase::Running
                },
                keys: after_event(state.keys, key_of_virtual_key(key), element),
                ..state
            },
            Input::Mouse { button, state: element } => LoopState {
                keys: after_event(state.keys, key_of_mouse_button(button), element),
                left_pressed: if button == MouseButton::Left {
                    element == ElementState::Pressed
                } else {
                    state.left_pressed
                },
                anchored: if button == MouseButton::Left && element == ElementState::Released {
                    false
                } else {
                    state.anchored
                },
                ..state
            },
            Input::CursorMoved { at_origin } => if state.left_pressed {
                LoopState { anchored: !at_origin, ..state }
            } else {
                state
            },
            _ => state,
        }
    }
}

/// What an event leaves for the caller to do.
pub open spec fn reaction_to(state: LoopState, input: Input) -> Reaction {
    if state.phase != Phase::Running {
        Reaction::Nothing
    } else {
        match input {
            Input::Resized { width, height } => Reaction::Resized { width, height },
            Input::CloseRequested => Reaction::Exit,
            Input::Keyboard { .. } => if is_escape_press(input) {
                Reaction::Exit
            } else {
                Reaction::Nothing
            },
            Input::Mouse { button, state: element } => if button == MouseButton::Left && element
                == ElementState::Released {
                Reaction::ReleaseAnchor
            } else {
                Reaction::Nothing
            },
            Input::CursorMoved { .. } => if !state.left_pressed {
                Reaction::Nothing
            } else if state.anchored {
                Reaction::Rotate
            } else {
                Reaction::Anchor
            },
            Input::RedrawRequested => Reaction::Redraw { moves: moves_of(state.keys) },
            Input::Other => Reaction::Nothing,
        }
    }
}

/// The calls that an event issues: those of a resize, those of a frame, or
/// none.
pub open spec fn calls_for(state: LoopState, scene: Scene, input: Input) -> Seq<GlCall> {
    if state.phase != Phase::Running {
        Seq::empty()
    } else {
        match input {
            Input::Resized { width, height } => scene.resize_calls(width, height),
            Input::RedrawRequested => scene.draw_calls(),
            _ => Seq::empty(),
        }
    }
}

/// What holds of every state that the loop reaches: the left button counts as
/// held exactly when its key is filed as pressed, and only a drag under way
/// has an anchor.
pub open spec fn consistent(state: LoopState) -> bool {
    &&& state.left_pressed == state.keys.contains(KeyCode::MouseLeft)
    &&& state.anchored ==> state.left_pressed
}

/// The loop's input state.
pub struct Playground {
    phase: Phase,
    keys: EventState,
    left_pressed: bool,
    anchored: bool,
}

impl View for Playground {
    type V = LoopState;

    closed spec fn view(&self) -> LoopState {
        LoopState {
            phase: self.phase,
            keys: self.keys@,
            left_pressed: self.left_pressed,
            anchored: self.anchored,
        }
    }
}

impl Playground {
    /// A loop that has not started: no key pressed, no drag.
    pub fn new() -> (playground: Playground)
        ensures
            playground@ == (LoopState {
                phase: Phase::Init,
                keys: Set::empty(),
                left_pressed: false,
                anchored: false,
            }),
            consistent(playground@),
    {
        Playground {
            phase: Phase::Init,
            keys: EventState::new(),
            left_pressed: false,
            anchored: false,
        }
    }

    /// Where the loop stands.
    pub fn phase(&self) -> (phase: Phase)
        ensures
            phase == self@.phase,
    {
        self.phase
    }

    /// Whether `key` is pressed.
    pub fn is_pressed(&self, key: &KeyCode) -> (pressed: bool)
        ensures
            pressed == self@.keys.contains(*key),
    {
        self.keys.is_pressed(key)
    }

    /// Starts the loop once the scene is built. A loop that has started or
    /// ended stays as it is.
    pub fn start(&mut self)
        ensures
            final(self)@ == (LoopState {
                phase: if old(self)@.phase == Phase::Init {
                    Phase::Running
                } else {
                    old(self)@.phase
                },
                ..old(self)@
            }),
    {
        match self.phase {
            Phase::Init => {
                self.phase = Phase::Running;
            },
            _ => {},
        }
    }

    /// Takes one event.
    pub fn step(&mut self, gl: &mut Gl, scene: &mut Scene, input: Input) -> (reaction: Reaction)
        ensures
            final(self)@ == next_state(old(self)@, input),
            reaction == reaction_to(old(self)@, input),
            final(gl).issued() == old(gl).issued() + calls_for(old(self)@, *old(scene), input),
            final(gl).staged() == old(gl).staged(),
            final(gl).next_name() == old(gl).next_name(),
            old(self)@.phase == Phase::Running && input is Resized ==> {
                &&& *final(scene) == (Scene {
                    frame_buffer: final(scene).frame_buffer,
                    ..*old(scene)
                })
                &&& final(scene).frame_buffer.name() == old(scene).frame_buffer.name()
                &&& final(scene).frame_buffer.texture_name() == old(
                    scene,
                ).frame_buffer.texture_name()
                &&& final(scene).frame_buffer.size() == (input->width, input->height)
            },
            !(old(self)@.phase == Phase::Running && input is Resized) ==> *final(scene) == *old(
                scene,
            ),
    {
        match self.phase {
            Phase::Running => {},
            _ => {
                assert(gl.issued() =~= old(gl).issued() + Seq::<GlCall>::empty());
                return Reaction::Nothing;
            },
        }
        let reaction = match input {
            Input::Resized { width, height } => {
                scene.resize(gl, width, height);
                Reaction::Resized { width, height }
            },
            Input::CloseRequested => {
                self.phase = Phase::Exiting;
                Reaction::Exit
            },
            Input::Keyboard { key, state } => {
                self.keys.process_event(KeyCode::from(key), state);
                match (key, state) {
                    (VirtualKeyCode::Escape, ElementState::Pressed) => {
                        self.phase = Phase::Exiting;
                        Reaction::Exit
                    },
                    _ => Reaction::Nothing,
                }
            },
            Input::Mouse { button, state } => {
                self.keys.process_event(KeyCode::from(button), state);
                match (button, state) {
                    (MouseButton::Left, ElementState::Pressed) => {
                        self.left_pressed = true;
                        Reaction::Nothing
                    },
                    (MouseButton::Left, ElementState::Released) => {
                        self.left_pressed = false;
                        self.anchored = false;
                        Reaction::ReleaseAnchor
                    },
                    _ => Reaction::Nothing,
                }
            },
            Input::CursorMoved { at_origin } => {
                if !self.left_pressed {
                    Reaction::Nothing
                } else {
                    let reaction = if self.anchored {
                        Reaction::Rotate
                    } else {
                        Reaction::Anchor
                    };
                    self.anchored = !at_origin;
                    reaction
                }
            },
            Input::RedrawRequested => {
                let moves = Moves {
                    left: self.keys.is_pressed(&KeyCode::A),
                    right: self.keys.is_pressed(&KeyCode::D),
                    forward: self.keys.is_pressed(&KeyCode::W),
                    back: self.keys.is_pressed(&KeyCode::S),
                };
                scene.draw(gl);
                Reaction::Redraw { moves }
            },
            Input::Other => Reaction::Nothing,
        };
        assert(gl.issued() =~= old(gl).issued() + calls_for(old(self)@, *old(scene), input));
        reaction
    }
}

/// Before the loop has started and after it has ended, an event changes
/// nothing, issues nothing and leaves nothing to do.
pub proof fn lemma_only_running_reacts(state: LoopState, scene: Scene, input: Input)
    requires
        state.phase != Phase::Running,
    ensures
        next_state(state, input) == state,
        reaction_to(state, input) == Reaction::Nothing,
        calls_for(state, scene, input) == Seq::<GlCall>::empty(),
{
}

/// A running loop ends on a close request and on a press of the escape key,
/// on nothing else, and then tells the caller to exit.
pub proof fn lemma_exit_triggers(state: LoopState, input: Input)
    requires
        state.phase == Phase::Running,
    ensures
        next_state(state, input).phase == Phase::Exiting <==> input is CloseRequested
            || is_escape_press(input),
        next_state(state, input).phase == Phase::Exiting <==> reaction_to(state, input)
            == Reaction::Exit,
        next_state(state, input).phase != Phase::Init,
{
}

/// Every event keeps the loop's state consistent.
pub proof fn lemma_step_keeps_consistent(state: LoopState, input: Input)
    requires
        consistent(state),
    ensures
        consistent(next_state(state, input)),
{
}

} // verus!
