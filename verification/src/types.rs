//! Geometry on the pixel grid, and colors.
//!
//! Coordinates are `i32`. Sums and products are taken exactly and then
//! clamped to the grid, so that every layout operation is total.

use vstd::prelude::*;

verus! {

/// The stable name of a widget or a window across frames. Callers keep
/// identifiers of distinct widgets distinct.
pub type Id = u64;

/// `v` clamped to the range of a grid coordinate.
pub open spec fn saturated(v: int) -> int {
    if v < i32::MIN {
        i32::MIN as int
    } else if v > i32::MAX {
        i32::MAX as int
    } else {
        v
    }
}

/// Clamps an exact intermediate result to a grid coordinate.
pub fn saturate(v: i128) -> (r: i32)
    ensures
        r == saturated(v as int),
{
    if v < i32::MIN as i128 {
        i32::MIN
    } else if v > i32::MAX as i128 {
        i32::MAX
    } else {
        v as i32
    }
}

/// `a` divided by the positive `d`, rounded down.
pub fn div_floor(a: i32, d: i64) -> (q: i32)
    requires
        d > 0,
    ensures
        q == a as int / d as int,
{
    assert(-0x8000_0000 <= a as int / d as int <= 0x7fff_ffff) by (nonlinear_arith)
        requires
            -0x8000_0000 <= a <= 0x7fff_ffff,
            d > 0,
    ;
    // The division cannot fail: the divisor is positive.
    match (a as i64).checked_div_euclid(d) {
        Some(q) => q as i32,
        None => 0,
    }
}

/// A point or an extent on the grid.
#[derive(Clone, Copy, Debug, PartialEq, Eq, Structural)]
pub struct Vec2 {
    pub x: i32,
    pub y: i32,
}

impl Vec2 {
    /// The point at `x` across and `y` down.
    pub fn new(x: i32, y: i32) -> (v: Vec2)
        ensures
            v == (Vec2 { x, y }),
    {
        Vec2 { x, y }
    }

    /// The origin.
    pub fn zero() -> (v: Vec2)
        ensures
            v == (Vec2 { x: 0, y: 0 }),
    {
        Vec2 { x: 0, y: 0 }
    }

    /// One unit each way.
    pub fn one() -> (v: Vec2)
        ensures
            v == (Vec2 { x: 1, y: 1 }),
    {
        Vec2 { x: 1, y: 1 }
    }

    /// The componentwise sum, clamped to the grid.
    pub open spec fn plus(self, rhs: Vec2) -> Vec2 {
        Vec2 { x: saturated(self.x + rhs.x) as i32, y: saturated(self.y + rhs.y) as i32 }
    }

    /// The componentwise difference, clamped to the grid.
    pub open spec fn minus(self, rhs: Vec2) -> Vec2 {
        Vec2 { x: saturated(self.x - rhs.x) as i32, y: saturated(self.y - rhs.y) as i32 }
    }

    /// Both components multiplied by `k`, clamped to the grid.
    pub open spec fn scaled(self, k: int) -> Vec2 {
        Vec2 { x: saturated(self.x * k) as i32, y: saturated(self.y * k) as i32 }
    }

    /// The sum, clamped to the grid.
    pub fn saturating_add(self, rhs: Vec2) -> (r: Vec2)
        ensures
            r == self.plus(rhs),
    {
        Vec2 {
            x: saturate(self.x as i128 + rhs.x as i128),
            y: saturate(self.y as i128 + rhs.y as i128),
        }
    }

    /// The difference, clamped to the grid.
    pub fn saturating_sub(self, rhs: Vec2) -> (r: Vec2)
        ensures
            r == self.minus(rhs),
    {
        Vec2 {
            x: saturate(self.x as i128 - rhs.x as i128),
            y: saturate(self.y as i128 - rhs.y as i128),
        }
    }

    /// Both components multiplied by `k`, clamped to the grid.
    pub fn saturating_scale(self, k: i32) -> (r: Vec2)
        ensures
            r == self.scaled(k as int),
    {
        Vec2 { x: saturate(scale(self.x, k)), y: saturate(scale(self.y, k)) }
    }
}

/// The exact product of two coordinates.
fn scale(a: i32, k: i32) -> (r: i128)
    ensures
        r == a * k,
{
    assert(-0x8000_0000 * 0x8000_0000 <= a * k <= 0x8000_0000 * 0x8000_0000) by (nonlinear_arith)
        requires
            -0x8000_0000 <= a <= 0x8000_0000,
            -0x8000_0000 <= k <= 0x8000_0000,
    ;
    a as i128 * k as i128
}

/// An axis-aligned rectangle: its top-left corner and its extent.
#[derive(Clone, Copy, Debug, PartialEq, Eq, Structural)]
pub struct Rect {
    pub position: Vec2,
    pub size: Vec2,
}

impl Rect {
    /// The rectangle with its top-left corner at `position`.
    pub fn new(position: Vec2, size: Vec2) -> (r: Rect)
        ensures
            r == (Rect { position, size }),
    {
        Rect { position, size }
    }

    /// Whether `p` lies in the rectangle. The rectangle is half-open: its left
    /// and top edges belong to it, its right and bottom edges do not. A
    /// rectangle with an extent of zero or less holds no point.
    pub open spec fn spec_contains(&self, p: Vec2) -> bool {
        &&& self.position.x <= p.x < self.position.x + self.size.x
        &&& self.position.y <= p.y < self.position.y + self.size.y
    }

    /// The hit test.
    #[verifier::when_used_as_spec(spec_contains)]
    pub fn contains(&self, p: Vec2) -> (inside: bool)
        ensures
            inside == self.spec_contains(p),
    {
        let right: i64 = self.position.x as i64 + self.size.x as i64;
        let bottom: i64 = self.position.y as i64 + self.size.y as i64;
        self.position.x <= p.x && (p.x as i64) < right && self.position.y <= p.y && (p.y as i64)
            < bottom
    }
}

/// A color, eight bits for each of red, green, blue and alpha.
#[derive(Clone, Copy, Debug, PartialEq, Eq, Structural)]
pub struct Color {
    pub r: u8,
    pub g: u8,
    pub b: u8,
    pub a: u8,
}

impl Color {
    /// The color of these four channels.
    pub fn new(r: u8, g: u8, b: u8, a: u8) -> (c: Color)
        ensures
            c == (Color { r, g, b, a }),
    {
        Color { r, g, b, a }
    }
}

} // verus!
