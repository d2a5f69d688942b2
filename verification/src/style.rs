//! The style table: margins, the height of a title bar, and the colors of
//! each surface by its state.

use crate::types::Color;
use vstd::prelude::*;

verus! {

/// What the widgets look up when they draw.
pub struct Style {
    /// The space between a window's edge and its content, and between lines.
    pub margin: i32,
    /// The space between a button's edge and its label.
    pub margin_button: i32,
    /// The height of a window's title bar.
    pub title_height: i32,
    pub window_background_focused: Color,
    pub window_background_inactive: Color,
    pub window_border_focused: Color,
    pub window_border_inactive: Color,
    pub title_focused: Color,
    pub title_inactive: Color,
    pub text_focused: Color,
    pub text_inactive: Color,
    pub button_background_focused: Color,
    pub button_background_focused_hovered: Color,
    pub button_background_focused_clicked: Color,
    pub button_background_inactive: Color,
    pub tabbar_background_focused: Color,
    pub tabbar_background_focused_hovered: Color,
    pub tabbar_background_focused_clicked: Color,
    pub tabbar_background_selected: Color,
    pub tabbar_background_selected_inactive: Color,
    pub tabbar_background_inactive: Color,
}

/// A grey of the given lightness and opacity.
pub open spec fn grey(value: u8, alpha: u8) -> Color {
    Color { r: value, g: value, b: value, a: alpha }
}

impl Style {
    /// The style a new context starts with.
    pub open spec fn spec_default() -> Style {
        Style {
            margin: 2,
            margin_button: 2,
            title_height: 14,
            window_background_focused: grey(238, 255),
            window_background_inactive: grey(238, 227),
            window_border_focused: grey(68, 255),
            window_border_inactive: grey(173, 255),
            title_focused: grey(0, 255),
            title_inactive: grey(102, 255),
            text_focused: grey(0, 255),
            text_inactive: grey(102, 255),
            button_background_focused: grey(204, 235),
            button_background_focused_hovered: grey(170, 235),
            button_background_focused_clicked: grey(187, 255),
            button_background_inactive: grey(204, 150),
            tabbar_background_focused: grey(204, 235),
            tabbar_background_focused_hovered: grey(170, 235),
            tabbar_background_focused_clicked: grey(187, 255),
            tabbar_background_selected: grey(102, 235),
            tabbar_background_selected_inactive: grey(102, 150),
            tabbar_background_inactive: grey(204, 150),
        }
    }

    pub open spec fn spec_background(&self, focused: bool) -> Color {
        if focused {
            self.window_background_focused
        } else {
            self.window_background_inactive
        }
    }

    pub open spec fn spec_window_border(&self, focused: bool) -> Color {
        if focused {
            self.window_border_focused
        } else {
            self.window_border_inactive
        }
    }

    pub open spec fn spec_title(&self, focused: bool) -> Color {
        if focused {
            self.title_focused
        } else {
            self.title_inactive
        }
    }

    pub open spec fn spec_text(&self, focused: bool) -> Color {
        if focused {
            self.text_focused
        } else {
            self.text_inactive
        }
    }

    /// A button in a window without focus is inactive whatever the pointer
    /// does. In the focused window a pressed button wins over a hovered one.
    pub open spec fn spec_button_background(
        &self,
        focused: bool,
        hovered: bool,
        clicked: bool,
    ) -> Color {
        if !focused {
            self.button_background_inactive
        } else if clicked {
            self.button_background_focused_clicked
        } else if hovered {
            self.button_background_focused_hovered
        } else {
            self.button_background_focused
        }
    }

    /// The selected tab keeps its own color, dimmed without focus. The other
    /// tabs behave as buttons do.
    pub open spec fn spec_tabbar_background(
        &self,
        focused: bool,
        selected: bool,
        hovered: bool,
        clicked: bool,
    ) -> Color {
        if !focused {
            if selected {
                self.tabbar_background_selected_inactive
            } else {
                self.tabbar_background_inactive
            }
        } else if selected {
            self.tabbar_background_selected
        } else if clicked {
            self.tabbar_background_focused_clicked
        } else if hovered {
            self.tabbar_background_focused_hovered
        } else {
            self.tabbar_background_focused
        }
    }

    /// The background of a window.
    #[verifier::when_used_as_spec(spec_background)]
    pub fn background(&self, focused: bool) -> (c: Color)
        ensures
            c == self.spec_background(focused),
    {
        if focused {
            self.window_background_focused
        } else {
            self.window_background_inactive
        }
    }

    /// The border of a window and the line under its title bar.
    #[verifier::when_used_as_spec(spec_window_border)]
    pub fn window_border(&self, focused: bool) -> (c: Color)
        ensures
            c == self.spec_window_border(focused),
    {
        if focused {
            self.window_border_focused
        } else {
            self.window_border_inactive
        }
    }

    /// The text in a title bar.
    #[verifier::when_used_as_spec(spec_title)]
    pub fn title(&self, focused: bool) -> (c: Color)
        ensures
            c == self.spec_title(focused),
    {
        if focused {
            self.title_focused
        } else {
            self.title_inactive
        }
    }

    /// The text of a widget's label.
    #[verifier::when_used_as_spec(spec_text)]
    pub fn text(&self, focused: bool) -> (c: Color)
        ensures
            c == self.spec_text(focused),
    {
        if focused {
            self.text_focused
        } else {
            self.text_inactive
        }
    }

    /// The background of a button.
    #[verifier::when_used_as_spec(spec_button_background)]
    pub fn button_background(&self, focused: bool, hovered: bool, clicked: bool) -> (c: Color)
        ensures
            c == self.spec_button_background(focused, hovered, clicked),
    {
        if !focused {
            self.button_background_inactive
        } else if clicked {
            self.button_background_focused_clicked
        } else if hovered {
            self.button_background_focused_hovered
        } else {
            self.button_background_focused
        }
    }

    /// The background of one tab of a tab bar.
    #[verifier::when_used_as_spec(spec_tabbar_background)]
    pub fn tabbar_background(
        &self,
        focused: bool,
        selected: bool,
        hovered: bool,
        clicked: bool,
    ) -> (c: Color)
        ensures
            c == self.spec_tabbar_background(focused, selected, hovered, clicked),
    {
        if !focused {
            if selected {
                self.tabbar_background_selected_inactive
            } else {
                self.tabbar_background_inactive
            }
        } else if selected {
            self.tabbar_background_selected
        } else if clicked {
            self.tabbar_background_focused_clicked
        } else if hovered {
            self.tabbar_background_focused_hovered
        } else {
            self.tabbar_background_focused
        }
    }
}

/// A grey of the given lightness and opacity.
fn grey_of(value: u8, alpha: u8) -> (c: Color)
    ensures
        c == grey(value, alpha),
{
    Color { r: value, g: value, b: value, a: alpha }
}

impl Default for Style {
    fn default() -> (s: Style)
        ensures
            s == Style::spec_default(),
    {
        Style {
            margin: 2,
            margin_button: 2,
            title_height: 14,
            window_background_focused: grey_of(238, 255),
            window_background_inactive: grey_of(238, 227),
            window_border_focused: grey_of(68, 255),
            window_border_inactive: grey_of(173, 255),
            title_focused: grey_of(0, 255),
            title_inactive: grey_of(102, 255),
            text_focused: grey_of(0, 255),
            text_inactive: grey_of(102, 255),
            button_background_focused: grey_of(204, 235),
            button_background_focused_hovered: grey_of(170, 235),
            button_background_focused_clicked: grey_of(187, 255),
            button_background_inactive: grey_of(204, 150),
            tabbar_background_focused: grey_of(204, 235),
            tabbar_background_focused_hovered: grey_of(170, 235),
            tabbar_background_focused_clicked: grey_of(187, 255),
            tabbar_background_selected: grey_of(102, 235),
            tabbar_background_selected_inactive: grey_of(102, 150),
            tabbar_background_inactive: grey_of(204, 150),
        }
    }
}

} // verus!
