//! The overlay layer: what an input event changes in the overlay's input
//! state.
//!
//! The overlay keeps five mouse button slots and a table of key slots. An
//! event is turned into the one change it asks for; the host applies it.
//! Wheel deltas and pointer positions are carried as single-precision bit
//! patterns, the position already in logical pixels.

use vstd::prelude::*;

verus! {

/// Number of mouse button slots of the overlay.
pub const MOUSE_BUTTONS: usize = 5;

/// Number of key slots of the overlay.
pub const KEY_SLOTS: usize = 652;

/// Whether a button or key went down or up.
#[derive(Clone, Copy, Debug, PartialEq, Eq)]
pub enum State {
    Pressed,
    Released,
}

/// A mouse button.
#[derive(Clone, Copy, Debug, PartialEq, Eq)]
pub enum Button {
    Left,
    Right,
    Middle,
    Other(u8),
}

/// The keys the overlay treats specially, and all the others.
#[derive(Clone, Copy, Debug, PartialEq, Eq)]
pub enum KeyKind {
    LShift,
    RShift,
    LControl,
    RControl,
    LAlt,
    RAlt,
    LWin,
    RWin,
    Other,
}

/// A key: its number in the key table and what kind of key it is.
#[derive(Clone, Copy, Debug, PartialEq, Eq)]
pub struct Key {
    pub code: usize,
    pub kind: KeyKind,
}

/// An input event that reaches the overlay.
#[derive(Clone, Copy, Debug, PartialEq, Eq)]
pub enum Event {
    MouseButton { button: Button, state: State },
    MouseWheel { x: u32, y: u32 },
    MouseMovement { x: u32, y: u32 },
    Keyboard { key: Key, state: State },
}

/// A modifier flag of the overlay.
#[derive(Clone, Copy, Debug, PartialEq, Eq)]
pub enum Modifier {
    Shift,
    Ctrl,
    Alt,
    Super,
}

/// The change that one event makes to the overlay's input state.
#[derive(Clone, Copy, Debug, PartialEq, Eq)]
pub enum IoUpdate {
    /// Mouse button slot `slot` is down or up.
    MouseDown { slot: usize, down: bool },
    /// The wheel value is `value`.
    MouseWheel { value: u32 },
    /// The pointer is at (`x`, `y`).
    MousePos { x: u32, y: u32 },
    /// Key slot `slot` is down or up, and so is `modifier` if the key is
    /// one.
    KeyDown { slot: usize, down: bool, modifier: Option<Modifier> },
}

/// The slot of a mouse button: left, right and middle come first, any other
/// button has the slot of its number.
pub open spec fn button_slot(button: Button) -> int {
    match button {
        Button::Left => 0,
        Button::Right => 1,
        Button::Middle => 2,
        Button::Other(n) => n as int,
    }
}

/// The modifier flag that a key drives, if it drives one: the left and the
/// right key of a pair drive the same flag.
pub open spec fn modifier_of(kind: KeyKind) -> Option<Modifier> {
    match kind {
        KeyKind::LShift | KeyKind::RShift => Some(Modifier::Shift),
        KeyKind::LControl | KeyKind::RControl => Some(Modifier::Ctrl),
        KeyKind::LAlt | KeyKind::RAlt => Some(Modifier::Alt),
        KeyKind::LWin | KeyKind::RWin => Some(Modifier::Super),
        KeyKind::Other => None,
    }
}

/// The event names a slot that the overlay has.
pub open spec fn accepted(event: Event) -> bool {
    match event {
        Event::MouseButton { button, .. } => button_slot(button) < MOUSE_BUTTONS,
        Event::Keyboard { key, .. } => key.code < KEY_SLOTS,
        _ => true,
    }
}

/// The change an event asks for. Of a wheel event the horizontal delta is
/// the one that stays.
pub open spec fn update_of(event: Event) -> IoUpdate {
    match event {
        Event::MouseButton { button, state } => IoUpdate::MouseDown {
            slot: button_slot(button) as usize,
            down: state == State::Pressed,
        },
        Event::MouseWheel { x, y } => IoUpdate::MouseWheel { value: x },
        Event::MouseMovement { x, y } => IoUpdate::MousePos { x, y },
        Event::Keyboard { key, state } => IoUpdate::KeyDown {
            slot: key.code,
            down: state == State::Pressed,
            modifier: modifier_of(key.kind),
        },
    }
}

/// The overlay layer.
#[derive(Clone, Debug, PartialEq, Eq)]
pub struct Gui {
    name: String,
    index_on_stack: Option<usize>,
}

impl Gui {
    /// The name of the layer.
    pub closed spec fn name_view(&self) -> Seq<char> {
        self.name@
    }

    /// The place of the layer on the layer stack, once it has one.
    pub closed spec fn stack_index(&self) -> Option<usize> {
        self.index_on_stack
    }

    /// A layer called `name` that is on no stack yet.
    pub fn build(name: String) -> (gui: Gui)
        ensures
            gui.name_view() == name@,
            gui.stack_index() is None,
    {
        Gui { name, index_on_stack: None }
    }

    /// The name of the layer.
    pub fn get_name(&self) -> (name: &String)
        ensures
            name@ == self.name_view(),
    {
        &self.name
    }

    /// The place of the layer on the layer stack, once it has one.
    pub fn index_on_stack(&self) -> (index: Option<usize>)
        ensures
            index == self.stack_index(),
    {
        self.index_on_stack
    }

    /// Attaches the layer to a window. The layer keeps nothing of a window,
    /// so this changes nothing.
    pub fn attach_window(&mut self)
        ensures
            *final(self) == *old(self),
    {
    }

    /// Whether the overlay has the slot that the event names.
    pub fn accepts(&self, event: &Event) -> (ok: bool)
        ensures
            ok == accepted(*event),
    {
        match event {
            Event::MouseButton { button, .. } => match button {
                Button::Other(n) => (*n as usize) < MOUSE_BUTTONS,
                _ => true,
            },
            Event::Keyboard { key, .. } => key.code < KEY_SLOTS,
            _ => true,
        }
    }

    /// Turns an event into the change it makes to the input state.
    pub fn on_event(&self, event: &Event) -> (update: IoUpdate)
        requires
            accepted(*event),
        ensures
            update == update_of(*event),
    {
        match event {
            Event::MouseButton { button, state } => {
                let down = match state {
                    State::Pressed => true,
                    State::Released => false,
                };
                let slot: usize = match button {
                    Button::Left => 0,
                    Button::Right => 1,
                    Button::Middle => 2,
                    Button::Other(n) => *n as usize,
                };
                IoUpdate::MouseDown { slot, down }
            },
            Event::MouseWheel { x, .. } => IoUpdate::MouseWheel { value: *x },
            Event::MouseMovement { x, y } => IoUpdate::MousePos { x: *x, y: *y },
            Event::Keyboard { key, state } => {
                let down = match state {
                    State::Pressed => true,
                    State::Released => false,
                };
                let modifier = match key.kind {
                    KeyKind::LShift | KeyKind::RShift => Some(Modifier::Shift),
                    KeyKind::LControl | KeyKind::RControl => Some(Modifier::Ctrl),
                    KeyKind::LAlt | KeyKind::RAlt => Some(Modifier::Alt),
                    KeyKind::LWin | KeyKind::RWin => Some(Modifier::Super),
                    KeyKind::Other => None,
                };
                IoUpdate::KeyDown { slot: key.code, down, modifier }
            },
        }
    }
}

/// An accepted event changes a slot that exists.
pub proof fn lemma_update_in_range(event: Event)
    requires
        accepted(event),
    ensures
        update_of(event) matches IoUpdate::MouseDown { slot, .. } ==> slot < MOUSE_BUTTONS,
        update_of(event) matches IoUpdate::KeyDown { slot, .. } ==> slot < KEY_SLOTS,
{
}

} // verus!
