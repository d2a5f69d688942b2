//! The input accumulator: one consistent snapshot of pointer and keyboard for
//! the frame.
//!
//! The platform layer writes the fields as events arrive. Widgets read the
//! pointer's buttons through the three accessors only, which answer `false`
//! while the cursor is grabbed or a modal surface is up.

use crate::types::Vec2;
use vstd::prelude::*;

verus! {

/// A key that is not a character.
#[derive(Clone, Copy, Debug, PartialEq, Eq, Structural)]
pub enum KeyCode {
    Up,
    Down,
    Right,
    Left,
    Home,
    End,
    Delete,
    Backspace,
    Enter,
    Tab,
    Control,
}

/// What a keyboard event carries.
#[derive(Clone, Copy, Debug, PartialEq, Eq, Structural)]
pub enum Key {
    Char(char),
    KeyCode(KeyCode),
}

/// One keyboard event with the modifiers that were held.
#[derive(Clone, Copy, Debug, PartialEq, Eq, Structural)]
pub struct InputCharacter {
    pub key: Key,
    pub modifier_shift: bool,
    pub modifier_ctrl: bool,
}

/// The input snapshot.
#[derive(Clone)]
pub struct Input {
    pub mouse_position: Vec2,
    /// The level of the pointer's button.
    pub is_mouse_down: bool,
    /// The button went down in this frame.
    pub click_down: bool,
    /// The button went up in this frame.
    pub click_up: bool,
    pub mouse_wheel: Vec2,
    /// The keyboard events of this frame, oldest first.
    pub input_buffer: Vec<InputCharacter>,
    /// Something else owns the pointer, a drag for one.
    pub cursor_grabbed: bool,
    /// A modal surface is up.
    pub modal_active: bool,
}

/// An input snapshot as a mathematical value.
#[verifier::ext_equal]
pub ghost struct InputView {
    pub mouse_position: Vec2,
    pub is_mouse_down: bool,
    pub click_down: bool,
    pub click_up: bool,
    pub mouse_wheel: Vec2,
    pub input_buffer: Seq<InputCharacter>,
    pub cursor_grabbed: bool,
    pub modal_active: bool,
}

impl InputView {
    /// Nothing pressed, nothing queued, the pointer at the origin.
    pub open spec fn idle() -> InputView {
        InputView {
            mouse_position: Vec2 { x: 0, y: 0 },
            is_mouse_down: false,
            click_down: false,
            click_up: false,
            mouse_wheel: Vec2 { x: 0, y: 0 },
            input_buffer: Seq::empty(),
            cursor_grabbed: false,
            modal_active: false,
        }
    }

    /// Whether widgets may react to the pointer's buttons at all.
    pub open spec fn interactive(self) -> bool {
        !self.cursor_grabbed && !self.modal_active
    }

    pub open spec fn is_mouse_down(self) -> bool {
        self.is_mouse_down && self.interactive()
    }

    pub open spec fn click_down(self) -> bool {
        self.click_down && self.interactive()
    }

    pub open spec fn click_up(self) -> bool {
        self.click_up && self.interactive()
    }

    /// The snapshot at the start of the next frame: what lasts one frame is
    /// cleared, the pointer's position and the level of its button stay, and
    /// so does the grab.
    pub open spec fn reset(self) -> InputView {
        InputView {
            click_down: false,
            click_up: false,
            modal_active: false,
            mouse_wheel: Vec2 { x: 0, y: 0 },
            input_buffer: Seq::empty(),
            ..self
        }
    }
}

impl View for Input {
    type V = InputView;

    open spec fn view(&self) -> InputView {
        InputView {
            mouse_position: self.mouse_position,
            is_mouse_down: self.is_mouse_down,
            click_down: self.click_down,
            click_up: self.click_up,
            mouse_wheel: self.mouse_wheel,
            input_buffer: self.input_buffer@,
            cursor_grabbed: self.cursor_grabbed,
            modal_active: self.modal_active,
        }
    }
}

impl Input {
    /// Whether the button is held, as widgets may see it.
    pub fn is_mouse_down(&self) -> (down: bool)
        ensures
            down == self@.is_mouse_down(),
            self.cursor_grabbed || self.modal_active ==> !down,
    {
        self.is_mouse_down && self.cursor_grabbed == false && self.modal_active == false
    }

    /// Whether the button went down in this frame, as widgets may see it.
    pub fn click_down(&self) -> (clicked: bool)
        ensures
            clicked == self@.click_down(),
            self.cursor_grabbed || self.modal_active ==> !clicked,
    {
        self.click_down && self.cursor_grabbed == false && self.modal_active == false
    }

    /// Whether the button went up in this frame, as widgets may see it.
    pub fn click_up(&self) -> (clicked: bool)
        ensures
            clicked == self@.click_up(),
            self.cursor_grabbed || self.modal_active ==> !clicked,
    {
        self.click_up && self.cursor_grabbed == false && self.modal_active == false
    }

    /// Clears what lasts one frame only.
    pub fn reset(&mut self)
        ensures
            final(self)@ == old(self)@.reset(),
            !final(self)@.click_down(),
            !final(self)@.click_up(),
            final(self)@.mouse_wheel == (Vec2 { x: 0, y: 0 }),
            final(self)@.input_buffer.len() == 0,
            final(self)@.mouse_position == old(self)@.mouse_position,
            final(self)@.is_mouse_down == old(self)@.is_mouse_down,
    {
        self.click_down = false;
        self.click_up = false;
        self.modal_active = false;
        self.mouse_wheel = Vec2::zero();
        self.input_buffer = Vec::new();
    }
}

impl Default for Input {
    fn default() -> (input: Input)
        ensures
            input@ == InputView::idle(),
    {
        Input {
            mouse_position: Vec2::zero(),
            is_mouse_down: false,
            click_down: false,
            click_up: false,
            mouse_wheel: Vec2::zero(),
            input_buffer: Vec::new(),
            cursor_grabbed: false,
            modal_active: false,
        }
    }
}

/// After a reset the edges, the wheel and the text buffer are at their
/// defaults, whatever the snapshot held, and no widget sees a click.
pub proof fn lemma_reset_clears_transients(input: InputView)
    ensures
        !input.reset().click_down,
        !input.reset().click_up,
        !input.reset().click_down(),
        !input.reset().click_up(),
        input.reset().mouse_wheel == (Vec2 { x: 0, y: 0 }),
        input.reset().input_buffer == Seq::<InputCharacter>::empty(),
        !input.reset().modal_active,
        input.reset().mouse_position == input.mouse_position,
        input.reset().is_mouse_down == input.is_mouse_down,
        input.reset().cursor_grabbed == input.cursor_grabbed,
        input.reset().reset() == input.reset(),
{
}

/// While the cursor is grabbed or a modal surface is up, no accessor
/// answers `true`, whatever the raw fields hold.
pub proof fn lemma_gated_while_grabbed_or_modal(input: InputView)
    requires
        input.cursor_grabbed || input.modal_active,
    ensures
        !input.is_mouse_down(),
        !input.click_down(),
        !input.click_up(),
{
}

} // verus!
