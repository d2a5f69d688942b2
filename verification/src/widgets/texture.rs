//! A texture of the renderer shown in a rectangle, which can be clicked.

use crate::draw_command::DrawOp;
use crate::types::{Rect, Vec2};
use crate::ui::cursor::{layout_of, Layout};
use crate::ui::input::{Input, InputView};
use crate::ui::window_state::{WindowState, WindowView};
use crate::ui::model::lemma_with_active;
use crate::ui::Ui;
use vstd::prelude::*;

verus! {

/// A texture to be declared.
pub struct Texture {
    /// Where the texture goes. Without a position it joins the vertical flow.
    pub position: Option<Vec2>,
    pub w: i32,
    pub h: i32,
    /// The renderer's handle of the texture.
    pub texture: u32,
}

impl Texture {
    /// The rectangle that the texture takes in `window`.
    pub open spec fn rect(self, window: WindowView) -> Rect {
        let size = Vec2 { x: self.w, y: self.h };
        Rect { position: window.cursor.placed(size, layout_of(self.position)), size }
    }

    /// Whether the pointer is over the texture.
    pub open spec fn hovered(self, window: WindowView, input: InputView) -> bool {
        self.rect(window).spec_contains(input.mouse_position)
    }

    /// The window after the texture was declared in it.
    pub open spec fn declared_in(self, window: WindowView) -> WindowView {
        WindowView {
            cursor: window.cursor.advanced(self.rect(window).size, layout_of(self.position)),
            draw_commands: window.draw_commands.push(
                DrawOp::RawTexture { rect: self.rect(window), texture: self.texture },
            ),
            ..window
        }
    }

    /// A texture of a hundred units each way in the vertical flow.
    pub fn new(texture: u32) -> (widget: Texture)
        ensures
            widget == (Texture { position: None, w: 100, h: 100, texture }),
    {
        Texture { position: None, w: 100, h: 100, texture }
    }

    /// The extent in which the texture is shown.
    pub fn size(self, w: i32, h: i32) -> (widget: Texture)
        ensures
            widget == (Texture { w, h, ..self }),
    {
        Texture { w, h, ..self }
    }

    /// Where the texture goes: at this position, or in the vertical flow.
    pub fn position(self, position: Option<Vec2>) -> (widget: Texture)
        ensures
            widget == (Texture { position, ..self }),
    {
        Texture { position, ..self }
    }

    /// Declares the texture in the window that is being declared. Returns
    /// whether it was clicked: the window has the focus, the pointer is over
    /// the texture, and the pointer's button went up in this frame.
    pub fn ui(self, ui: &mut Ui) -> (clicked: bool)
        requires
            old(ui)@.wf(),
            old(ui)@.active_window is Some,
        ensures
            clicked == (old(ui)@.focused() && self.hovered(old(ui)@.active(), old(ui)@.input)
                && old(ui)@.input.click_up()),
            final(ui)@ == old(ui)@.with_active(self.declared_in(old(ui)@.active())),
            final(ui)@.wf(),
            final(ui)@.input == old(ui)@.input,
    {
        let context = ui.get_active_window_context();
        proof {
            lemma_with_active(old(ui)@, self.declared_in(old(ui)@.active()));
        }
        self.declare_in(context.window, context.input, context.focused)
    }

    /// The work of `ui` on the parts of the context.
    fn declare_in(self, window: &mut WindowState, input: &Input, focused: bool) -> (clicked: bool)
        ensures
            clicked == (focused && self.hovered(old(window)@, input@) && input@.click_up()),
            final(window)@ == self.declared_in(old(window)@),
    {
        let size = Vec2::new(self.w, self.h);

        let pos = window.cursor.fit(size, Layout::of(self.position));
        window.draw_commands.draw_raw_texture(
            Rect::new(pos, Vec2::new(self.w, self.h)),
            self.texture,
        );

        let hovered = Rect::new(pos, size).contains(input.mouse_position);

        focused && hovered && input.click_up()
    }
}

impl Ui {
    /// Declares a texture in the vertical flow. See [`Texture::ui`].
    pub fn texture(&mut self, texture: u32, w: i32, h: i32) -> (clicked: bool)
        requires
            old(self)@.wf(),
            old(self)@.active_window is Some,
        ensures
            clicked == (old(self)@.focused() && (Texture { position: None, w, h, texture }).hovered(
                old(self)@.active(),
                old(self)@.input,
            ) && old(self)@.input.click_up()),
            final(self)@ == old(self)@.with_active(
                (Texture { position: None, w, h, texture }).declared_in(old(self)@.active()),
            ),
            final(self)@.wf(),
            final(self)@.input == old(self)@.input,
    {
        Texture::new(texture).size(w, h).ui(self)
    }
}

} // verus!
