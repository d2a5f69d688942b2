//! A push button: a filled rectangle with a label.

use crate::draw_command::{Alignment, DrawOp, TextMetrics};
use crate::style::Style;
use crate::types::{saturated, Rect, Vec2};
use crate::ui::cursor::{layout_of, Layout};
use crate::ui::input::{Input, InputView};
use crate::ui::window_state::{WindowState, WindowView};
use crate::ui::model::lemma_with_active;
use crate::ui::Ui;
use vstd::prelude::*;

verus! {

/// A button to be declared.
pub struct Button<'a> {
    /// Where the button goes. Without a position it joins the vertical flow.
    pub position: Option<Vec2>,
    /// The extent of the button. Without one the label decides.
    pub size: Option<Vec2>,
    pub label: &'a str,
}

impl<'a> Button<'a> {
    /// The extent of the button: the one it was given, or that of its
    /// label with the button margin twice across and once down.
    pub open spec fn extent(self, metrics: TextMetrics, style: Style) -> Vec2 {
        match self.size {
            Some(size) => size,
            None => metrics.measure(self.label@).plus(
                Vec2 { x: saturated(2 * style.margin_button) as i32, y: style.margin_button },
            ),
        }
    }

    /// The rectangle that the button takes in `window`.
    pub open spec fn rect(self, window: WindowView, style: Style) -> Rect {
        let size = self.extent(window.draw_commands.metrics, style);
        Rect { position: window.cursor.placed(size, layout_of(self.position)), size }
    }

    /// Whether the pointer is over the button.
    pub open spec fn hovered(self, window: WindowView, input: InputView, style: Style) -> bool {
        self.rect(window, style).spec_contains(input.mouse_position)
    }

    /// The window after the button was declared in it.
    pub open spec fn declared_in(
        self,
        window: WindowView,
        input: InputView,
        style: Style,
        focused: bool,
    ) -> WindowView {
        let rect = self.rect(window, style);
        let hovered = self.hovered(window, input, style);
        WindowView {
            cursor: window.cursor.advanced(rect.size, layout_of(self.position)),
            draw_commands: window.draw_commands.push(
                DrawOp::Rect {
                    rect,
                    stroke: None,
                    fill: style.spec_button_background(
                        focused,
                        hovered,
                        hovered && input.is_mouse_down(),
                    ),
                },
            ).push(
                DrawOp::Label {
                    label: self.label@,
                    position: rect.position.plus(
                        Vec2 { x: style.margin_button, y: style.margin_button },
                    ),
                    color: Some(style.spec_text(focused)),
                    alignment: Alignment::Left,
                },
            ),
            ..window
        }
    }

    /// A button in the vertical flow, as large as its label asks.
    pub fn new(label: &'a str) -> (button: Button<'a>)
        ensures
            button == (Button { position: None, size: None, label }),
    {
        Button { position: None, size: None, label }
    }

    /// Where the button goes: at this position, or in the vertical flow.
    pub fn position(self, position: Option<Vec2>) -> (button: Button<'a>)
        ensures
            button == (Button { position, ..self }),
    {
        Button { position, ..self }
    }

    /// The extent of the button, whatever its label.
    pub fn size(self, size: Vec2) -> (button: Button<'a>)
        ensures
            button == (Button { size: Some(size), ..self }),
    {
        Button { size: Some(size), ..self }
    }

    /// Declares the button in the window that is being declared. Returns
    /// whether it was clicked: the window has the focus, the pointer is over
    /// the button, and the pointer's button went up in this frame.
    pub fn ui(self, ui: &mut Ui) -> (clicked: bool)
        requires
            old(ui)@.wf(),
            old(ui)@.active_window is Some,
        ensures
            clicked == (old(ui)@.focused() && self.hovered(
                old(ui)@.active(),
                old(ui)@.input,
                old(ui)@.style,
            ) && old(ui)@.input.click_up()),
            final(ui)@ == old(ui)@.with_active(
                self.declared_in(
                    old(ui)@.active(),
                    old(ui)@.input,
                    old(ui)@.style,
                    old(ui)@.focused(),
                ),
            ),
            final(ui)@.wf(),
            final(ui)@.input == old(ui)@.input,
    {
        let context = ui.get_active_window_context();
        proof {
            lemma_with_active(
                old(ui)@,
                self.declared_in(
                    old(ui)@.active(),
                    old(ui)@.input,
                    old(ui)@.style,
                    old(ui)@.focused(),
                ),
            );
        }
        self.declare_in(context.window, context.input, context.global_style, context.focused)
    }

    /// The work of `ui` on the parts of the context.
    fn declare_in(
        self,
        window: &mut WindowState,
        input: &Input,
        style: &Style,
        focused: bool,
    ) -> (clicked: bool)
        ensures
            clicked == (focused && self.hovered(old(window)@, input@, *style) && input@.click_up()),
            final(window)@ == self.declared_in(old(window)@, input@, *style, focused),
    {
        let size = match self.size {
            Some(size) => size,
            None => window.draw_commands.label_size(self.label).saturating_add(
                Vec2::new(2, 1).saturating_scale(style.margin_button),
            ),
        };

        let pos = window.cursor.fit(size, Layout::of(self.position));
        let rect = Rect::new(pos, size);
        let hovered = rect.contains(input.mouse_position);

        window.draw_commands.draw_rect(
            rect,
            None,
            style.button_background(focused, hovered, hovered && input.is_mouse_down()),
        );
        window.draw_commands.draw_label(
            self.label,
            pos.saturating_add(Vec2::one().saturating_scale(style.margin_button)),
            Some(style.text(focused)),
            Alignment::Left,
        );

        focused && hovered && input.click_up()
    }
}

impl Ui {
    /// Declares a button. See [`Button::ui`].
    pub fn button(&mut self, position: Option<Vec2>, label: &str) -> (clicked: bool)
        requires
            old(self)@.wf(),
            old(self)@.active_window is Some,
        ensures
            clicked == (old(self)@.focused() && (Button { position, size: None, label }).hovered(
                old(self)@.active(),
                old(self)@.input,
                old(self)@.style,
            ) && old(self)@.input.click_up()),
            final(self)@ == old(self)@.with_active(
                (Button { position, size: None, label }).declared_in(
                    old(self)@.active(),
                    old(self)@.input,
                    old(self)@.style,
                    old(self)@.focused(),
                ),
            ),
            final(self)@.wf(),
            final(self)@.input == old(self)@.input,
    {
        Button::new(label).position(position).ui(self)
    }
}

} // verus!
