//! The layout head of a window: where the next widget goes.

use crate::types::{saturate, saturated, Vec2};
use vstd::prelude::*;

verus! {

/// How a widget asks to be placed.
#[derive(Clone, Copy, Debug, PartialEq, Eq, Structural)]
pub enum Layout {
    /// Below what was placed before, at the current indentation.
    Vertical,
    /// At this position exactly. The vertical flow is left as it is.
    Free(Vec2),
}

/// How a widget with an optional position asks to be placed: freely where
/// it has one, in the vertical flow where it has none.
pub open spec fn layout_of(position: Option<Vec2>) -> Layout {
    match position {
        Some(p) => Layout::Free(p),
        None => Layout::Vertical,
    }
}

impl Layout {
    /// The layout of a widget with an optional position.
    pub fn of(position: Option<Vec2>) -> (layout: Layout)
        ensures
            layout == layout_of(position),
    {
        match position {
            Some(p) => Layout::Free(p),
            None => Layout::Vertical,
        }
    }
}

/// The layout head.
#[derive(Clone, Copy, Debug, PartialEq, Eq, Structural)]
pub struct Cursor {
    /// Where the vertical flow starts, in the coordinates of the screen.
    pub origin: Vec2,
    /// How far below the origin the next widget of the flow goes.
    pub offset: i32,
    /// The indentation of the flow. Tree nodes raise it for their content.
    pub ident: i32,
    /// The height of the line placed last.
    pub line_height: i32,
    /// The space left between two lines.
    pub spacing: i32,
    /// How far the content is scrolled.
    pub scroll: Vec2,
    /// The largest offset that the flow reached in this frame.
    pub extent: i32,
    /// The same of the frame before.
    pub extent_previous: i32,
}

impl Cursor {
    /// The cursor of a new window.
    pub open spec fn fresh(origin: Vec2, spacing: i32) -> Cursor {
        Cursor {
            origin,
            offset: 0,
            ident: 0,
            line_height: 0,
            spacing,
            scroll: Vec2 { x: 0, y: 0 },
            extent: 0,
            extent_previous: 0,
        }
    }

    /// The top-left corner that a widget of extent `size` gets.
    pub open spec fn placed(self, size: Vec2, layout: Layout) -> Vec2 {
        match layout {
            Layout::Vertical => Vec2 {
                x: saturated(self.origin.x + self.ident - self.scroll.x) as i32,
                y: saturated(self.origin.y + self.offset - self.scroll.y) as i32,
            },
            Layout::Free(target) => target,
        }
    }

    /// The offset of the flow after a widget of height `height` was placed
    /// in it.
    pub open spec fn next_offset(self, height: i32) -> i32 {
        saturated(self.offset + height + self.spacing) as i32
    }

    /// The cursor after a widget of extent `size` was placed. The size is
    /// taken as it is, also where it is zero or negative.
    pub open spec fn advanced(self, size: Vec2, layout: Layout) -> Cursor {
        match layout {
            Layout::Vertical => Cursor {
                offset: self.next_offset(size.y),
                line_height: size.y,
                extent: if self.extent >= self.next_offset(size.y) {
                    self.extent
                } else {
                    self.next_offset(size.y)
                },
                ..self
            },
            Layout::Free(_) => self,
        }
    }

    /// The cursor with its indentation changed by `by`.
    pub open spec fn indented(self, by: int) -> Cursor {
        Cursor { ident: saturated(self.ident + by) as i32, ..self }
    }

    /// The cursor at the start of the next frame. Origin, spacing and scroll
    /// stay; the extent of the flow is kept as that of the frame before.
    pub open spec fn rewound(self) -> Cursor {
        Cursor {
            offset: 0,
            ident: 0,
            line_height: 0,
            extent: 0,
            extent_previous: self.extent,
            ..self
        }
    }

    /// The cursor of a new window.
    pub fn new(origin: Vec2, spacing: i32) -> (cursor: Cursor)
        ensures
            cursor == Cursor::fresh(origin, spacing),
    {
        Cursor {
            origin,
            offset: 0,
            ident: 0,
            line_height: 0,
            spacing,
            scroll: Vec2::zero(),
            extent: 0,
            extent_previous: 0,
        }
    }

    /// Places a widget of extent `size` and returns its top-left corner.
    pub fn fit(&mut self, size: Vec2, layout: Layout) -> (position: Vec2)
        ensures
            position == old(self).placed(size, layout),
            *final(self) == old(self).advanced(size, layout),
    {
        match layout {
            Layout::Vertical => {
                let position = Vec2 {
                    x: saturate(self.origin.x as i128 + self.ident as i128 - self.scroll.x as i128),
                    y: saturate(
                        self.origin.y as i128 + self.offset as i128 - self.scroll.y as i128,
                    ),
                };
                let next: i32 = saturate(
                    self.offset as i128 + size.y as i128 + self.spacing as i128,
                );
                self.offset = next;
                self.line_height = size.y;
                if self.extent < next {
                    self.extent = next;
                }
                position
            },
            Layout::Free(target) => target,
        }
    }

    /// Changes the indentation by `by`.
    pub fn indent(&mut self, by: i32)
        ensures
            *final(self) == old(self).indented(by as int),
    {
        self.ident = saturate(self.ident as i128 + by as i128);
    }

    /// Starts the next frame.
    pub fn reset(&mut self)
        ensures
            *final(self) == old(self).rewound(),
    {
        self.extent_previous = self.extent;
        self.offset = 0;
        self.ident = 0;
        self.line_height = 0;
        self.extent = 0;
    }
}

/// A widget placed freely gets the position it asked for and leaves the
/// flow untouched, whatever its size.
pub proof fn lemma_free_placement_is_verbatim(cursor: Cursor, size: Vec2, target: Vec2)
    ensures
        cursor.placed(size, Layout::Free(target)) == target,
        cursor.advanced(size, Layout::Free(target)) == cursor,
{
}

/// To take back an indentation restores the cursor, unless the indentation
/// was clamped on the way.
pub proof fn lemma_indentation_is_taken_back(cursor: Cursor, by: int)
    requires
        i32::MIN <= cursor.ident + by <= i32::MAX,
    ensures
        cursor.indented(by).indented(-by) == cursor,
{
}

} // verus!
