//! What the context keeps of a window from frame to frame.

use crate::draw_command::{CommandsList, CommandsView, TextMetrics};
use crate::types::{saturate, saturated, Id, Rect, Vec2};
use crate::ui::cursor::Cursor;
use crate::ui::input::{Input, InputView};
use vstd::prelude::*;

verus! {

/// A window on the stack.
pub struct WindowState {
    pub id: Id,
    pub position: Vec2,
    pub size: Vec2,
    /// The height of the title bar; zero where the window has none.
    pub title_height: i32,
    /// The space between the window's edge and its content.
    pub margin: i32,
    pub movable: bool,
    /// A window that is not enabled never has the focus.
    pub enabled: bool,
    /// The window was declared in the frame before.
    pub was_active: bool,
    /// The window was declared in this frame.
    pub active: bool,
    /// The window asked to be closed in this frame.
    pub want_close: bool,
    /// While the window is dragged: where in the window the pointer took hold.
    pub grabbed_at: Option<Vec2>,
    pub cursor: Cursor,
    pub draw_commands: CommandsList,
}

/// A window's state as a mathematical value.
#[verifier::ext_equal]
pub ghost struct WindowView {
    pub id: Id,
    pub position: Vec2,
    pub size: Vec2,
    pub title_height: i32,
    pub margin: i32,
    pub movable: bool,
    pub enabled: bool,
    pub was_active: bool,
    pub active: bool,
    pub want_close: bool,
    pub grabbed_at: Option<Vec2>,
    pub cursor: Cursor,
    pub draw_commands: CommandsView,
}

/// Where the vertical flow of a window starts: inside the content
/// rectangle, one margin from its left and top edges.
pub open spec fn flow_origin(position: Vec2, title_height: i32, margin: i32) -> Vec2 {
    Vec2 {
        x: saturated(position.x + margin) as i32,
        y: saturated(position.y + title_height + margin) as i32,
    }
}

impl WindowView {
    /// A window that was never declared before.
    pub open spec fn fresh(
        id: Id,
        position: Vec2,
        size: Vec2,
        title_height: i32,
        margin: i32,
        movable: bool,
        enabled: bool,
        metrics: TextMetrics,
    ) -> WindowView {
        WindowView {
            id,
            position,
            size,
            title_height,
            margin,
            movable,
            enabled,
            was_active: false,
            active: false,
            want_close: false,
            grabbed_at: None,
            cursor: Cursor::fresh(flow_origin(position, title_height, margin), margin),
            draw_commands: CommandsView { commands: Seq::empty(), clipping_zone: None, metrics },
        }
    }

    /// The whole window, title bar included.
    pub open spec fn full_rect(self) -> Rect {
        Rect { position: self.position, size: self.size }
    }

    /// The title bar: a strip of the title's height at the top.
    pub open spec fn title_rect(self) -> Rect {
        Rect { position: self.position, size: Vec2 { x: self.size.x, y: self.title_height } }
    }

    /// What is left of the window below the title bar.
    pub open spec fn content_rect(self) -> Rect {
        Rect {
            position: Vec2 {
                x: self.position.x,
                y: saturated(self.position.y + self.title_height) as i32,
            },
            size: Vec2 { x: self.size.x, y: saturated(self.size.y - self.title_height) as i32 },
        }
    }

    /// Whether the window is on screen: it was declared in this frame or in
    /// the one before.
    pub open spec fn visible(self) -> bool {
        self.active || self.was_active
    }

    /// Whether a press at `p` lands on the window.
    pub open spec fn accepts(self, p: Vec2) -> bool {
        self.visible() && self.enabled && self.full_rect().spec_contains(p)
    }

    /// The window at another place. The flow's origin goes with it.
    pub open spec fn moved_to(self, position: Vec2) -> WindowView {
        WindowView {
            position,
            cursor: Cursor {
                origin: flow_origin(position, self.title_height, self.margin),
                ..self.cursor
            },
            ..self
        }
    }

    /// How far the content may be scrolled at most: by what the flow of the
    /// frame before reached beyond the content rectangle.
    pub open spec fn scroll_limit(self) -> int {
        let overflow = saturated(self.cursor.extent_previous - self.content_rect().size.y);
        if overflow > 0 {
            overflow
        } else {
            0
        }
    }

    /// The window after its scroll region was opened. The wheel scrolls the
    /// focused window while the pointer is over its content; the offset stays
    /// between zero and the limit.
    pub open spec fn scrolled(self, input: InputView, focused: bool) -> WindowView {
        let wanted = if focused && self.content_rect().spec_contains(input.mouse_position) {
            saturated(self.cursor.scroll.y - input.mouse_wheel.y)
        } else {
            self.cursor.scroll.y as int
        };
        let y = if wanted < 0 {
            0
        } else if wanted > self.scroll_limit() {
            self.scroll_limit()
        } else {
            wanted
        };
        WindowView {
            cursor: Cursor { scroll: Vec2 { x: self.cursor.scroll.x, y: y as i32 }, ..self.cursor },
            ..self
        }
    }

    /// The window after a press at `p` that landed on it: where it is
    /// movable and the press is in its title bar, the pointer takes hold.
    pub open spec fn pressed_at(self, p: Vec2) -> WindowView {
        if self.movable && self.title_rect().spec_contains(p) {
            WindowView { grabbed_at: Some(p.minus(self.position)), ..self }
        } else {
            self
        }
    }

    /// The window after the pointer moved to `p`: a window that is held
    /// follows the pointer.
    pub open spec fn dragged_to(self, p: Vec2) -> WindowView {
        match self.grabbed_at {
            Some(hold) => self.moved_to(p.minus(hold)),
            None => self,
        }
    }

    /// The window after the pointer's button went up.
    pub open spec fn released(self) -> WindowView {
        WindowView { grabbed_at: None, ..self }
    }

    /// The window after it was declared again with these properties. What
    /// the declaration says of size, title bar and flags wins; the position
    /// is the window's own while it is movable.
    pub open spec fn declared(
        self,
        position: Vec2,
        size: Vec2,
        title_height: i32,
        movable: bool,
        enabled: bool,
    ) -> WindowView {
        WindowView {
            size,
            title_height,
            movable,
            enabled,
            want_close: false,
            active: true,
            ..self
        }.moved_to(if movable { self.position } else { position })
    }

    /// The window at the start of the next frame.
    pub open spec fn next_frame(self) -> WindowView {
        WindowView {
            was_active: self.active,
            active: false,
            cursor: self.cursor.rewound(),
            draw_commands: self.draw_commands.cleared(),
            ..self
        }
    }
}

impl View for WindowState {
    type V = WindowView;

    open spec fn view(&self) -> WindowView {
        WindowView {
            id: self.id,
            position: self.position,
            size: self.size,
            title_height: self.title_height,
            margin: self.margin,
            movable: self.movable,
            enabled: self.enabled,
            was_active: self.was_active,
            active: self.active,
            want_close: self.want_close,
            grabbed_at: self.grabbed_at,
            cursor: self.cursor,
            draw_commands: self.draw_commands@,
        }
    }
}

/// The origin of the flow for a window at `position`.
fn origin_of(position: Vec2, title_height: i32, margin: i32) -> (origin: Vec2)
    ensures
        origin == flow_origin(position, title_height, margin),
{
    Vec2 {
        x: saturate(position.x as i128 + margin as i128),
        y: saturate(position.y as i128 + title_height as i128 + margin as i128),
    }
}

impl WindowState {
    /// A window that was never declared before.
    pub fn new(
        id: Id,
        position: Vec2,
        size: Vec2,
        title_height: i32,
        margin: i32,
        movable: bool,
        enabled: bool,
        metrics: TextMetrics,
    ) -> (window: WindowState)
        ensures
            window@ == WindowView::fresh(
                id,
                position,
                size,
                title_height,
                margin,
                movable,
                enabled,
                metrics,
            ),
    {
        WindowState {
            id,
            position,
            size,
            title_height,
            margin,
            movable,
            enabled,
            was_active: false,
            active: false,
            want_close: false,
            grabbed_at: None,
            cursor: Cursor::new(origin_of(position, title_height, margin), margin),
            draw_commands: CommandsList::new(metrics),
        }
    }

    /// The whole window, title bar included.
    pub fn full_rect(&self) -> (rect: Rect)
        ensures
            rect == self@.full_rect(),
    {
        Rect::new(self.position, self.size)
    }

    /// The title bar.
    pub fn title_rect(&self) -> (rect: Rect)
        ensures
            rect == self@.title_rect(),
    {
        Rect::new(self.position, Vec2::new(self.size.x, self.title_height))
    }

    /// What is left of the window below the title bar.
    pub fn content_rect(&self) -> (rect: Rect)
        ensures
            rect == self@.content_rect(),
    {
        Rect::new(
            Vec2::new(
                self.position.x,
                saturate(self.position.y as i128 + self.title_height as i128),
            ),
            Vec2::new(self.size.x, saturate(self.size.y as i128 - self.title_height as i128)),
        )
    }

    /// Whether a press at `p` lands on the window.
    pub fn accepts(&self, p: Vec2) -> (hit: bool)
        ensures
            hit == self@.accepts(p),
    {
        (self.active || self.was_active) && self.enabled && self.full_rect().contains(p)
    }

    /// Moves the window, and the origin of its flow with it.
    pub fn set_position(&mut self, position: Vec2)
        ensures
            final(self)@ == old(self)@.moved_to(position),
    {
        self.position = position;
        self.cursor.origin = origin_of(position, self.title_height, self.margin);
    }

    /// Asks for the window to be closed.
    pub fn close(&mut self)
        ensures
            final(self)@ == (WindowView { want_close: true, ..old(self)@ }),
    {
        self.want_close = true;
    }

    /// Opens the scroll region of the window: takes the wheel and keeps the
    /// scroll offset within what the content of the frame before overflowed.
    pub fn scroll_area(&mut self, input: &Input, focused: bool)
        ensures
            final(self)@ == old(self)@.scrolled(input@, focused),
    {
        let content = self.content_rect();
        let overflow: i32 = saturate(self.cursor.extent_previous as i128 - content.size.y as i128);
        let limit: i32 = if overflow > 0 {
            overflow
        } else {
            0
        };
        let wanted: i32 = if focused && content.contains(input.mouse_position) {
            saturate(self.cursor.scroll.y as i128 - input.mouse_wheel.y as i128)
        } else {
            self.cursor.scroll.y
        };
        self.cursor.scroll.y = if wanted < 0 {
            0
        } else if wanted > limit {
            limit
        } else {
            wanted
        };
    }

    /// Starts the next frame: the draw commands go, the flow starts over, and
    /// whether the window was declared is remembered for one frame.
    pub fn new_frame(&mut self)
        ensures
            final(self)@ == old(self)@.next_frame(),
    {
        self.was_active = self.active;
        self.active = false;
        self.cursor.reset();
        self.draw_commands.clear();
    }
}

} // verus!
