//! Keyboard and mouse state: which logical keys are currently held down.

use glutin::event::ElementState;
use glutin::event::MouseButton;
use glutin::event::VirtualKeyCode;
use std::collections::HashMap;
use vstd::prelude::*;
use vstd::std_specs::convert::FromSpecImpl;
use vstd::std_specs::hash::*;

verus! {

/// `glutin::event::ElementState`, with its two variants visible to proofs.
#[verifier::external_type_specification]
pub struct ExElementState(ElementState);

/// `glutin::event::MouseButton`, with its four variants visible to proofs.
#[verifier::external_type_specification]
pub struct ExMouseButton(MouseButton);

/// `glutin::event::VirtualKeyCode`, with its variants visible to proofs.
#[verifier::external_type_specification]
pub struct ExVirtualKeyCode(VirtualKeyCode);

/// A logical key or mouse button. Input codes that have no variant of their own
/// fall back to `Other` (mouse buttons) or `Error` (keyboard keys).
#[derive(Debug, Clone, Copy, PartialEq, Eq, Hash, Structural)]
pub enum KeyCode {
    MouseLeft,
    MouseRight,
    MouseMiddle,
    A,
    B,
    C,
    D,
    E,
    F,
    G,
    H,
    I,
    J,
    K,
    L,
    M,
    N,
    O,
    P,
    Q,
    R,
    S,
    T,
    U,
    V,
    W,
    X,
    Y,
    Z,
    Space,
    LControl,
    LShift,
    RControl,
    RShift,
    Other(u8),
    Error,
}

/// The key that a mouse button stands for.
pub open spec fn key_of_mouse_button(button: MouseButton) -> KeyCode {
    match button {
        MouseButton::Left => KeyCode::MouseLeft,
        MouseButton::Right => KeyCode::MouseRight,
        MouseButton::Middle => KeyCode::MouseMiddle,
        MouseButton::Other(code) => KeyCode::Other(code),
    }
}

/// The key that a keyboard key stands for; `KeyCode::Error` for every key
/// without a variant of its own.
pub open spec fn key_of_virtual_key(key: VirtualKeyCode) -> KeyCode {
    match key {
        VirtualKeyCode::A => KeyCode::A,
        VirtualKeyCode::B => KeyCode::B,
        VirtualKeyCode::C => KeyCode::C,
        VirtualKeyCode::D => KeyCode::D,
        VirtualKeyCode::E => KeyCode::E,
        VirtualKeyCode::F => KeyCode::F,
        VirtualKeyCode::G => KeyCode::G,
        VirtualKeyCode::H => KeyCode::H,
        VirtualKeyCode::I => KeyCode::I,
        VirtualKeyCode::J => KeyCode::J,
        VirtualKeyCode::K => KeyCode::K,
        VirtualKeyCode::L => KeyCode::L,
        VirtualKeyCode::M => KeyCode::M,
        VirtualKeyCode::N => KeyCode::N,
        VirtualKeyCode::O => KeyCode::O,
        VirtualKeyCode::P => KeyCode::P,
        VirtualKeyCode::Q => KeyCode::Q,
        VirtualKeyCode::R => KeyCode::R,
        VirtualKeyCode::S => KeyCode::S,
        VirtualKeyCode::T => KeyCode::T,
        VirtualKeyCode::U => KeyCode::U,
        VirtualKeyCode::V => KeyCode::V,
        VirtualKeyCode::W => KeyCode::W,
        VirtualKeyCode::X => KeyCode::X,
        VirtualKeyCode::Y => KeyCode::Y,
        VirtualKeyCode::Z => KeyCode::Z,
        VirtualKeyCode::Space => KeyCode::Space,
        VirtualKeyCode::LControl => KeyCode::LControl,
        VirtualKeyCode::LShift => KeyCode::LShift,
        VirtualKeyCode::RControl => KeyCode::RControl,
        VirtualKeyCode::RShift => KeyCode::RShift,
        _ => KeyCode::Error,
    }
}

impl From<MouseButton> for KeyCode {
    fn from(other: MouseButton) -> (key: KeyCode) {
        match other {
            MouseButton::Left => KeyCode::MouseLeft,
            MouseButton::Right => KeyCode::MouseRight,
            MouseButton::Middle => KeyCode::MouseMiddle,
            MouseButton::Other(code) => KeyCode::Other(code),
        }
    }
}

impl FromSpecImpl<MouseButton> for KeyCode {
    open spec fn obeys_from_spec() -> bool {
        true
    }

    open spec fn from_spec(other: MouseButton) -> KeyCode {
        key_of_mouse_button(other)
    }
}

impl From<VirtualKeyCode> for KeyCode {
    fn from(other: VirtualKeyCode) -> (key: KeyCode) {
        match other {
            VirtualKeyCode::A => KeyCode::A,
            VirtualKeyCode::B => KeyCode::B,
            VirtualKeyCode::C => KeyCode::C,
            VirtualKeyCode::D => KeyCode::D,
            VirtualKeyCode::E => KeyCode::E,
            VirtualKeyCode::F => KeyCode::F,
            VirtualKeyCode::G => KeyCode::G,
            VirtualKeyCode::H => KeyCode::H,
            VirtualKeyCode::I => KeyCode::I,
            VirtualKeyCode::J => KeyCode::J,
            VirtualKeyCode::K => KeyCode::K,
            VirtualKeyCode::L => KeyCode::L,
            VirtualKeyCode::M => KeyCode::M,
            VirtualKeyCode::N => KeyCode::N,
            VirtualKeyCode::O => KeyCode::O,
            VirtualKeyCode::P => KeyCode::P,
            VirtualKeyCode::Q => KeyCode::Q,
            VirtualKeyCode::R => KeyCode::R,
            VirtualKeyCode::S => KeyCode::S,
            VirtualKeyCode::T => KeyCode::T,
            VirtualKeyCode::U => KeyCode::U,
            VirtualKeyCode::V => KeyCode::V,
            VirtualKeyCode::W => KeyCode::W,
            VirtualKeyCode::X => KeyCode::X,
            VirtualKeyCode::Y => KeyCode::Y,
            VirtualKeyCode::Z => KeyCode::Z,
            VirtualKeyCode::Space => KeyCode::Space,
            VirtualKeyCode::LControl => KeyCode::LControl,
            VirtualKeyCode::LShift => KeyCode::LShift,
            VirtualKeyCode::RControl => KeyCode::RControl,
            VirtualKeyCode::RShift => KeyCode::RShift,
            _ => KeyCode::Error,
        }
    }
}

impl FromSpecImpl<VirtualKeyCode> for KeyCode {
    open spec fn obeys_from_spec() -> bool {
        true
    }

    open spec fn from_spec(other: VirtualKeyCode) -> KeyCode {
        key_of_virtual_key(other)
    }
}

impl KeyCode {
    /// The slot under which the key is filed: the variants in the order of their
    /// declaration from 0 on, `Error` at 34, and `Other(code)` at 256 + code.
    pub open spec fn slot(self) -> u16 {
        match self {
            KeyCode::MouseLeft => 0,
            KeyCode::MouseRight => 1,
            KeyCode::MouseMiddle => 2,
            KeyCode::A => 3,
            KeyCode::B => 4,
            KeyCode::C => 5,
            KeyCode::D => 6,
            KeyCode::E => 7,
            KeyCode::F => 8,
            KeyCode::G => 9,
            KeyCode::H => 10,
            KeyCode::I => 11,
            KeyCode::J => 12,
            KeyCode::K => 13,
            KeyCode::L => 14,
            KeyCode::M => 15,
            KeyCode::N => 16,
            KeyCode::O => 17,
            KeyCode::P => 18,
            KeyCode::Q => 19,
            KeyCode::R => 20,
            KeyCode::S => 21,
            KeyCode::T => 22,
            KeyCode::U => 23,
            KeyCode::V => 24,
            KeyCode::W => 25,
            KeyCode::X => 26,
            KeyCode::Y => 27,
            KeyCode::Z => 28,
            KeyCode::Space => 29,
            KeyCode::LControl => 30,
            KeyCode::LShift => 31,
            KeyCode::RControl => 32,
            KeyCode::RShift => 33,
            KeyCode::Error => 34,
            KeyCode::Other(code) => (256 + code) as u16,
        }
    }

    /// Computes `slot`.
    pub fn slot_of(&self) -> (slot: u16)
        ensures
            slot == self.slot(),
    {
        match self {
            KeyCode::MouseLeft => 0,
            KeyCode::MouseRight => 1,
            KeyCode::MouseMiddle => 2,
            KeyCode::A => 3,
            KeyCode::B => 4,
            KeyCode::C => 5,
            KeyCode::D => 6,
            KeyCode::E => 7,
            KeyCode::F => 8,
            KeyCode::G => 9,
            KeyCode::H => 10,
            KeyCode::I => 11,
            KeyCode::J => 12,
            KeyCode::K => 13,
            KeyCode::L => 14,
            KeyCode::M => 15,
            KeyCode::N => 16,
            KeyCode::O => 17,
            KeyCode::P => 18,
            KeyCode::Q => 19,
            KeyCode::R => 20,
            KeyCode::S => 21,
            KeyCode::T => 22,
            KeyCode::U => 23,
            KeyCode::V => 24,
            KeyCode::W => 25,
            KeyCode::X => 26,
            KeyCode::Y => 27,
            KeyCode::Z => 28,
            KeyCode::Space => 29,
            KeyCode::LControl => 30,
            KeyCode::LShift => 31,
            KeyCode::RControl => 32,
            KeyCode::RShift => 33,
            KeyCode::Error => 34,
            KeyCode::Other(code) => {
                let wide: u16 = (*code).into();
                256 + wide
            },
        }
    }

    /// No two keys share a slot.
    pub proof fn lemma_slot_injective(a: KeyCode, b: KeyCode)
        ensures
            a.slot() == b.slot() <==> a == b,
    {
    }
}

/// The set of pressed keys after one more event: a press adds the key, a
/// release takes it out.
pub open spec fn after_event(pressed: Set<KeyCode>, code: KeyCode, state: ElementState) -> Set<
    KeyCode,
> {
    match state {
        ElementState::Pressed => pressed.insert(code),
        ElementState::Released => pressed.remove(code),
    }
}

/// The set of pressed keys after a run of events, starting with every key
/// released.
pub open spec fn after_events(events: Seq<(KeyCode, ElementState)>) -> Set<KeyCode>
    decreases events.len(),
{
    if events.len() == 0 {
        Set::empty()
    } else {
        after_event(after_events(events.drop_last()), events.last().0, events.last().1)
    }
}

/// Keeps track of which keys are pressed. A key that is not filed is released.
pub struct EventState {
    state: HashMap<u16, ElementState>,
}

impl View for EventState {
    type V = Set<KeyCode>;

    /// The keys that are pressed.
    closed spec fn view(&self) -> Set<KeyCode> {
        Set::new(
            |key: KeyCode|
                self.state@.contains_key(key.slot()) && self.state@[key.slot()]
                    == ElementState::Pressed,
        )
    }
}

impl EventState {
    /// A state with every key released.
    pub fn new() -> (events: EventState)
        ensures
            events@ == Set::<KeyCode>::empty(),
            events@ == after_events(Seq::empty()),
    {
        let events = EventState { state: HashMap::new() };
        assert(events@ =~= Set::<KeyCode>::empty());
        events
    }

    /// Whether `key` is pressed.
    pub fn is_pressed(&self, key: &KeyCode) -> (pressed: bool)
        ensures
            pressed == self@.contains(*key),
    {
        broadcast use group_hash_axioms;

        let slot = key.slot_of();
        match self.state.get(&slot) {
            Some(state) => match state {
                ElementState::Pressed => true,
                ElementState::Released => false,
            },
            None => false,
        }
    }

    /// Whether `key` is released.
    pub fn is_released(&self, key: &KeyCode) -> (released: bool)
        ensures
            released == !self@.contains(*key),
    {
        !self.is_pressed(key)
    }

    /// Takes in one key or button event.
    pub fn process_event(&mut self, code: KeyCode, element_state: ElementState)
        ensures
            final(self)@ == after_event(old(self)@, code, element_state),
    {
        broadcast use group_hash_axioms;

        let slot = code.slot_of();
        match element_state {
            ElementState::Pressed => {
                self.state.insert(slot, element_state);
            },
            ElementState::Released => {
                self.state.remove(&slot);
            },
        }
        assert forall|key: KeyCode|
            self@.contains(key) == after_event(old(self)@, code, element_state).contains(
                key,
            ) by {
            KeyCode::lemma_slot_injective(key, code);
        }
        assert(self@ =~= after_event(old(self)@, code, element_state));
    }
}

/// A key that no event has named is released.
pub proof fn lemma_unseen_key_is_released(events: Seq<(KeyCode, ElementState)>, key: KeyCode)
    requires
        forall|i: int| 0 <= i < events.len() ==> (#[trigger] events[i]).0 != key,
    ensures
        !after_events(events).contains(key),
    decreases events.len(),
{
    if events.len() > 0 {
        let earlier = events.drop_last();
        assert forall|i: int| 0 <= i < earlier.len() implies (#[trigger] earlier[i]).0 != key by {
            assert(earlier[i] == events[i]);
        }
        lemma_unseen_key_is_released(earlier, key);
        assert(events.last() == events[events.len() - 1]);
    }
}

/// A key is pressed right after its press event, and released right after its
/// release event, whatever came before.
pub proof fn lemma_last_event_decides(events: Seq<(KeyCode, ElementState)>, key: KeyCode)
    requires
        events.len() > 0,
        events.last().0 == key,
    ensures
        after_events(events).contains(key) == (events.last().1 == ElementState::Pressed),
{
}

} // verus!
