//! A window: a framed surface with its own flow, clip and scroll, in which
//! widgets are declared between `begin` and `end`.

use crate::draw_command::{Alignment, DrawOp};
use crate::style::Style;
use crate::types::{saturate, saturated, Id, Rect, Vec2};
use crate::ui::input::{Input, InputView};
use crate::ui::window_state::{WindowState, WindowView};
use crate::ui::model::{
    lemma_begin_window_wf, lemma_index_of, lemma_raised_wf, lemma_window_found, lemma_with_active,
    raised, UiView,
};
use crate::ui::Ui;
use vstd::prelude::*;

verus! {

/// A window to be declared.
#[derive(Debug, Clone)]
pub struct Window {
    pub id: Id,
    /// Where the window first appears, and where it stays while it is not
    /// movable.
    pub position: Vec2,
    pub size: Vec2,
    pub close_button: bool,
    pub enabled: bool,
    pub movable: bool,
    pub titlebar: bool,
    pub label: Option<String>,
}

/// The rectangle in which a release closes `window`: a square of twenty
/// units at the right end of the title bar.
pub open spec fn close_rect(window: WindowView) -> Rect {
    Rect {
        position: window.position.plus(
            Vec2 { x: saturated(window.size.x - 15) as i32, y: 0 },
        ),
        size: Vec2 { x: 20, y: 20 },
    }
}

impl Window {
    /// The height of the title bar that the window asks for.
    pub open spec fn title_height(self, style: Style) -> i32 {
        if self.titlebar {
            style.title_height
        } else {
            0
        }
    }

    /// The window after its frame was drawn: border and background, and
    /// with a title bar the title, where there is one, and the line under the
    /// bar.
    pub open spec fn framed(self, window: WindowView, style: Style, focused: bool) -> WindowView {
        let background = window.draw_commands.push(
            DrawOp::Rect {
                rect: Rect { position: window.position, size: window.size },
                stroke: Some(style.spec_window_border(focused)),
                fill: style.spec_background(focused),
            },
        );
        let titled = if self.titlebar && self.label is Some {
            background.push(
                DrawOp::Label {
                    label: self.label->0@,
                    position: window.position.plus(Vec2 { x: style.margin, y: style.margin }),
                    color: Some(style.spec_title(focused)),
                    alignment: Alignment::Left,
                },
            )
        } else {
            background
        };
        let lined = if self.titlebar {
            titled.push(
                DrawOp::Line {
                    start: window.position.plus(Vec2 { x: 0, y: style.title_height }),
                    end: window.position.plus(Vec2 { x: window.size.x, y: style.title_height }),
                    color: style.spec_window_border(focused),
                },
            )
        } else {
            titled
        };
        WindowView { draw_commands: lined, ..window }
    }

    /// Whether the close button is released in this frame: the window has
    /// the focus, the pointer is in the close rectangle, and the pointer's
    /// button went up.
    pub open spec fn close_released(window: WindowView, input: InputView, focused: bool) -> bool {
        focused && close_rect(window).spec_contains(input.mouse_position) && input.click_up()
    }

    /// The window after its close button was drawn.
    pub open spec fn with_close_button(window: WindowView, style: Style, focused: bool) -> WindowView {
        WindowView {
            draw_commands: window.draw_commands.push(
                DrawOp::Label {
                    label: "X"@,
                    position: window.position.plus(
                        Vec2 { x: saturated(window.size.x - 10) as i32, y: 3 },
                    ),
                    color: Some(style.spec_title(focused)),
                    alignment: Alignment::Left,
                },
            ),
            ..window
        }
    }

    /// Whether the window asks to be closed in this frame.
    pub open spec fn closes(self, window: WindowView, input: InputView, focused: bool) -> bool {
        self.close_button && Self::close_released(window, input, focused)
    }

    /// The window after `begin`: framed, with its close button where it has
    /// one, its scroll region open, and what follows clipped to its content.
    pub open spec fn begun_in(
        self,
        window: WindowView,
        input: InputView,
        style: Style,
        focused: bool,
    ) -> WindowView {
        let framed = self.framed(window, style, focused);
        let buttoned = if self.close_button {
            Self::with_close_button(framed, style, focused)
        } else {
            framed
        };
        let closing = WindowView {
            want_close: window.want_close || self.closes(window, input, focused),
            ..buttoned
        };
        let scrolled = closing.scrolled(input, focused);
        WindowView {
            draw_commands: scrolled.draw_commands.clip(Some(window.content_rect())),
            ..scrolled
        }
    }

    /// The stack after the window was declared: a window that was not
    /// declared in the frame before comes to the top.
    pub open spec fn stacked(self, ui: UiView) -> UiView {
        let declared = ui.begin_window(
            self.id,
            self.position,
            self.size,
            self.title_height(ui.style),
            self.movable,
            self.enabled,
        );
        if declared.active().was_active {
            declared
        } else {
            declared.focus_window(self.id)
        }
    }

    /// The context after `begin`.
    pub open spec fn begun(self, ui: UiView) -> UiView {
        let stacked = self.stacked(ui);
        stacked.with_active(
            self.begun_in(stacked.active(), stacked.input, stacked.style, stacked.focused()),
        )
    }

    /// A movable, enabled window with a title bar, without title and close
    /// button.
    pub open spec fn plain(id: Id, position: Vec2, size: Vec2) -> Window {
        Window {
            id,
            position,
            size,
            close_button: false,
            enabled: true,
            movable: true,
            titlebar: true,
            label: None,
        }
    }

    /// A movable, enabled window with a title bar, without title and close
    /// button.
    pub fn new(id: Id, position: Vec2, size: Vec2) -> (window: Window)
        ensures
            window == Window::plain(id, position, size),
    {
        Window {
            id,
            position,
            size,
            close_button: false,
            enabled: true,
            movable: true,
            titlebar: true,
            label: None,
        }
    }

    /// Whether two windows ask for the same but for their titles.
    pub open spec fn same_but_label(self, other: Window) -> bool {
        &&& self.id == other.id
        &&& self.position == other.position
        &&& self.size == other.size
        &&& self.close_button == other.close_button
        &&& self.enabled == other.enabled
        &&& self.movable == other.movable
        &&& self.titlebar == other.titlebar
    }

    /// The title in the title bar.
    pub fn label(self, label: &str) -> (window: Window)
        ensures
            window.same_but_label(self),
            window.label is Some,
            window.label->0@ == label@,
    {
        Window { label: Some(label.to_owned()), ..self }
    }

    /// Whether the window can be dragged by its title bar.
    pub fn movable(self, movable: bool) -> (window: Window)
        ensures
            window == (Window { movable, ..self }),
    {
        Window { movable, ..self }
    }

    /// Whether the title bar has a button that closes the window.
    pub fn close_button(self, close_button: bool) -> (window: Window)
        ensures
            window == (Window { close_button, ..self }),
    {
        Window { close_button, ..self }
    }

    /// Whether the window has a title bar.
    pub fn titlebar(self, titlebar: bool) -> (window: Window)
        ensures
            window == (Window { titlebar, ..self }),
    {
        Window { titlebar, ..self }
    }

    /// A window that is not enabled never has the focus, and so its widgets
    /// never react.
    pub fn enabled(self, enabled: bool) -> (window: Window)
        ensures
            window == (Window { enabled, ..self }),
    {
        Window { enabled, ..self }
    }

    /// Declares the window and, between `begin` and `end`, its content: `f`
    /// runs once. Returns whether the window stays open.
    pub fn ui<F: FnOnce(&mut Ui)>(self, ui: &mut Ui, f: F) -> (opened: bool)
        requires
            old(ui)@.wf(),
            old(ui)@.active_window is None,
            forall|u: &mut Ui|
                u@.wf() && u@.active_window == Some(self.id) ==> call_requires(f, (u,)),
            forall|u: &mut Ui|
                u@.wf() && u@.active_window == Some(self.id) && call_ensures(f, (u,), ())
                    ==> final(u)@.wf() && final(u)@.active_window == u@.active_window,
        ensures
            final(ui)@.wf(),
            final(ui)@.active_window is None,
            exists|u: &mut Ui|
                u@ == self.begun(old(ui)@) && #[trigger] call_ensures(f, (u,), ()) && final(ui)@
                    == WindowToken::ended(final(u)@) && opened == !final(u)@.active().want_close,
    {
        let token = self.begin(ui);
        f(ui);
        token.end(ui)
    }

    /// Begins the declaration of the window. The window is made where the
    /// context does not know it. A window that was not declared in the frame
    /// before gets the focus at once, if it is enabled. What is declared
    /// before the token's `end` is the window's content.
    pub fn begin(self, ui: &mut Ui) -> (token: WindowToken)
        requires
            old(ui)@.wf(),
            old(ui)@.active_window is None,
        ensures
            final(ui)@ == self.begun(old(ui)@),
            final(ui)@.wf(),
            final(ui)@.active_window == Some(self.id),
            final(ui)@.input == old(ui)@.input,
            !old(ui)@.has_window(self.id) && self.enabled ==> final(ui)@.is_focused(self.id),
    {
        let title_height = if self.titlebar {
            ui.style().title_height
        } else {
            0
        };

        let was_active = ui.begin_window(
            self.id,
            self.position,
            self.size,
            title_height,
            self.movable,
            self.enabled,
        );

        if was_active == false {
            ui.focus_window(self.id);
        }
        let ghost stacked = ui@;
        proof {
            lemma_stacked(self, old(ui)@);
        }

        let context = ui.get_active_window_context();

        self.draw_window_frame(context.window, context.global_style, context.focused);
        if self.close_button && self.draw_close_button(
            context.window,
            context.input,
            context.global_style,
            context.focused,
        ) {
            context.window.close();
        }
        let clip_rect = context.window.content_rect();
        context.window.scroll_area(context.input, context.focused);

        context.window.draw_commands.clip(Some(clip_rect));
        proof {
            let expected = self.begun_in(
                stacked.active(),
                stacked.input,
                stacked.style,
                stacked.focused(),
            );
            assert(stacked == self.stacked(old(ui)@));
            assert(context.window@ == expected);
            lemma_with_active(stacked, expected);
            if !old(ui)@.has_window(self.id) && self.enabled {
                lemma_fresh_window_is_focused(self, old(ui)@);
            }
        }

        WindowToken
    }

    /// Draws the close button and answers whether it is released.
    fn draw_close_button(
        &self,
        window: &mut WindowState,
        input: &Input,
        style: &Style,
        focused: bool,
    ) -> (released: bool)
        ensures
            released == Self::close_released(old(window)@, input@, focused),
            final(window)@ == Self::with_close_button(old(window)@, *style, focused),
    {
        let button_rect = Rect::new(
            window.position.saturating_add(Vec2::new(saturate(window.size.x as i128 - 15), 0)),
            Vec2::one().saturating_scale(20),
        );
        window.draw_commands.draw_label(
            "X",
            window.position.saturating_add(Vec2::new(saturate(window.size.x as i128 - 10), 3)),
            Some(style.title(focused)),
            Alignment::Left,
        );
        focused && button_rect.contains(input.mouse_position) && input.click_up()
    }

    /// Draws border and background, and with a title bar the title and the
    /// line under the bar.
    fn draw_window_frame(&self, window: &mut WindowState, style: &Style, focused: bool)
        ensures
            final(window)@ == self.framed(old(window)@, *style, focused),
    {
        let position = window.position;
        let size = window.size;

        window.draw_commands.draw_rect(
            Rect::new(position, size),
            Some(style.window_border(focused)),
            style.background(focused),
        );

        if self.titlebar {
            match &self.label {
                Some(label) => {
                    window.draw_commands.draw_label(
                        label.as_str(),
                        position.saturating_add(Vec2::one().saturating_scale(style.margin)),
                        Some(style.title(focused)),
                        Alignment::Left,
                    );
                },
                None => {},
            }
            window.draw_commands.draw_line(
                position.saturating_add(Vec2::new(0, style.title_height)),
                position.saturating_add(Vec2::new(size.x, style.title_height)),
                style.window_border(focused),
            );
        }
    }
}

/// What `begin` hands out. It is to be given back with `end` when the
/// window's content has been declared.
#[must_use]
pub struct WindowToken;

impl WindowToken {
    /// The context after `end`: the clip is lifted and no window is being
    /// declared.
    pub open spec fn ended(ui: UiView) -> UiView {
        ui.with_active(
            WindowView { draw_commands: ui.active().draw_commands.clip(None), ..ui.active() },
        ).end_window()
    }

    /// Ends the declaration of the window. Returns whether the window stays
    /// open: `false` in the frame in which it asked to be closed.
    pub fn end(self, ui: &mut Ui) -> (opened: bool)
        requires
            old(ui)@.wf(),
            old(ui)@.active_window is Some,
        ensures
            opened == !old(ui)@.active().want_close,
            final(ui)@ == WindowToken::ended(old(ui)@),
            final(ui)@.wf(),
            final(ui)@.active_window is None,
            final(ui)@.input == old(ui)@.input,
    {
        let context = ui.get_active_window_context();
        proof {
            lemma_with_active(
                old(ui)@,
                WindowView {
                    draw_commands: old(ui)@.active().draw_commands.clip(None),
                    ..old(ui)@.active()
                },
            );
        }
        context.window.draw_commands.clip(None);

        let opened = context.window.want_close == false;

        ui.end_window();

        opened
    }
}

impl Ui {
    /// Declares a window and its content. See [`Window::ui`].
    pub fn window<F: FnOnce(&mut Ui)>(
        &mut self,
        id: Id,
        position: Vec2,
        size: Vec2,
        f: F,
    ) -> (opened: bool)
        requires
            old(self)@.wf(),
            old(self)@.active_window is None,
            forall|u: &mut Ui| u@.wf() && u@.active_window == Some(id) ==> call_requires(f, (u,)),
            forall|u: &mut Ui|
                u@.wf() && u@.active_window == Some(id) && call_ensures(f, (u,), ()) ==> final(u)@.wf() && final(u)@.active_window == u@.active_window,
        ensures
            final(self)@.wf(),
            final(self)@.active_window is None,
            exists|u: &mut Ui|
                u@ == Window::plain(id, position, size).begun(old(self)@) && #[trigger] call_ensures(
                    f,
                    (u,),
                    (),
                ) && final(self)@ == WindowToken::ended(final(u)@)
                    && opened == !final(u)@.active().want_close,
    {
        Window::new(id, position, size).ui(self, f)
    }
}

/// After the stack took up a declared window, the context is well formed
/// and the window is the one that is being declared.
pub proof fn lemma_stacked(window: Window, ui: UiView)
    requires
        ui.wf(),
    ensures
        window.stacked(ui).wf(),
        window.stacked(ui).active_window == Some(window.id),
        window.stacked(ui).has_window(window.id),
        window.stacked(ui).active().id == window.id,
{
    let declared = ui.begin_window(
        window.id,
        window.position,
        window.size,
        window.title_height(ui.style),
        window.movable,
        window.enabled,
    );
    lemma_begin_window_wf(
        ui,
        window.id,
        window.position,
        window.size,
        window.title_height(ui.style),
        window.movable,
        window.enabled,
    );
    lemma_window_found(declared, window.id);
    if !declared.active().was_active && declared.window(window.id).enabled {
        let i = declared.index_of(window.id);
        lemma_raised_wf(declared, i);
        let after = UiView { windows: raised(declared.windows, i), ..declared };
        assert(after.windows.last() == declared.windows[i]);
        lemma_index_of(after, after.windows.len() - 1);
    }
}

/// A window that the context did not know gets the focus in the frame in
/// which it first appears, if it is enabled.
pub proof fn lemma_fresh_window_is_focused(window: Window, ui: UiView)
    requires
        ui.wf(),
        !ui.has_window(window.id),
        window.enabled,
    ensures
        window.stacked(ui).is_focused(window.id),
        window.begun(ui).is_focused(window.id),
        window.begun(ui).focused(),
{
    let declared = ui.begin_window(
        window.id,
        window.position,
        window.size,
        window.title_height(ui.style),
        window.movable,
        window.enabled,
    );
    lemma_stacked(window, ui);
    lemma_begin_window_wf(
        ui,
        window.id,
        window.position,
        window.size,
        window.title_height(ui.style),
        window.movable,
        window.enabled,
    );
    assert(declared.windows[0].id == window.id);
    lemma_index_of(declared, 0);
    assert(!declared.active().was_active);
    assert(declared.window(window.id).enabled);
    let stacked = window.stacked(ui);
    assert(stacked.windows.last() == declared.windows[0]);
    lemma_index_of(stacked, stacked.windows.len() - 1);
    let expected = window.begun_in(stacked.active(), stacked.input, stacked.style, stacked.focused());
    lemma_with_active(stacked, expected);
    assert(window.begun(ui).windows.last() == expected);
}

/// A release on the close button closes the window once. In the frame of
/// the release `end` answers `false`, exactly when the window has a close
/// button, has the focus, and the pointer is in the close rectangle. In the
/// next frame, where nothing was released, `end` answers `true` again.
pub proof fn lemma_close_round_trip(window: Window, ui: UiView)
    requires
        ui.wf(),
    ensures
        window.begun(ui).active_window == Some(window.id),
        window.begun(ui).active().want_close == window.closes(
            window.stacked(ui).active(),
            ui.input,
            window.stacked(ui).focused(),
        ),
        !window.close_button ==> !window.begun(ui).active().want_close,
        !ui.input.click_up() ==> !window.begun(ui).active().want_close,
        !window.begun(WindowToken::ended(window.begun(ui)).next_frame()).active().want_close,
{
    lemma_begun(window, ui);
    let ended = WindowToken::ended(window.begun(ui));
    lemma_with_active(
        window.begun(ui),
        WindowView {
            draw_commands: window.begun(ui).active().draw_commands.clip(None),
            ..window.begun(ui).active()
        },
    );
    let next = ended.next_frame();
    assert(next.wf()) by {
        assert forall|i: int| 0 <= i < next.windows.len() implies next.windows[i].id
            == ended.windows[i].id by {}
    }
    lemma_begun(window, next);
}

/// What `begin` leaves of the window that is being declared.
pub proof fn lemma_begun(window: Window, ui: UiView)
    requires
        ui.wf(),
    ensures
        window.begun(ui).wf(),
        window.begun(ui).active_window == Some(window.id),
        window.begun(ui).input == ui.input,
        window.begun(ui).active() == window.begun_in(
            window.stacked(ui).active(),
            ui.input,
            ui.style,
            window.stacked(ui).focused(),
        ),
        window.begun(ui).active().want_close == window.closes(
            window.stacked(ui).active(),
            ui.input,
            window.stacked(ui).focused(),
        ),
{
    lemma_stacked(window, ui);
    let stacked = window.stacked(ui);
    let expected = window.begun_in(stacked.active(), stacked.input, stacked.style, stacked.focused());
    lemma_with_active(stacked, expected);
    let declared = ui.begin_window(
        window.id,
        window.position,
        window.size,
        window.title_height(ui.style),
        window.movable,
        window.enabled,
    );
    lemma_begin_window_wf(
        ui,
        window.id,
        window.position,
        window.size,
        window.title_height(ui.style),
        window.movable,
        window.enabled,
    );
    lemma_window_found(declared, window.id);
    assert(!declared.window(window.id).want_close);
    if !declared.active().was_active && declared.window(window.id).enabled {
        let i = declared.index_of(window.id);
        assert(stacked.windows.last() == declared.windows[i]);
        lemma_index_of(stacked, stacked.windows.len() - 1);
    }
    assert(!stacked.active().want_close);
}

} // verus!
