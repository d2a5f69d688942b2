use megaui::types::{div_floor, saturate};
use megaui::{Color, Cursor, Layout, Rect, Vec2};

#[test]
fn saturate_clamps_to_the_grid() {
    assert_eq!(saturate(0), 0);
    assert_eq!(saturate(-7), -7);
    assert_eq!(saturate(i32::MAX as i128), i32::MAX);
    assert_eq!(saturate(i32::MAX as i128 + 1), i32::MAX);
    assert_eq!(saturate(i32::MIN as i128), i32::MIN);
    assert_eq!(saturate(i32::MIN as i128 - 1), i32::MIN);
    assert_eq!(saturate(i128::MAX), i32::MAX);
    assert_eq!(saturate(i128::MIN), i32::MIN);
}

#[test]
fn div_floor_rounds_down() {
    assert_eq!(div_floor(7, 2), 3);
    assert_eq!(div_floor(-7, 2), -4);
    assert_eq!(div_floor(-8, 2), -4);
    assert_eq!(div_floor(0, 5), 0);
    assert_eq!(div_floor(-1, 3), -1);
    assert_eq!(div_floor(i32::MIN, 1), i32::MIN);
    assert_eq!(div_floor(i32::MAX, 4_294_967_295), 0);
    assert_eq!(div_floor(i32::MIN, 4_294_967_295), -1);
}

#[test]
fn vec2_constructors() {
    assert_eq!(Vec2::new(3, -4), Vec2 { x: 3, y: -4 });
    assert_eq!(Vec2::zero(), Vec2 { x: 0, y: 0 });
    assert_eq!(Vec2::one(), Vec2 { x: 1, y: 1 });
}

#[test]
fn vec2_addition_is_exact_inside_the_grid() {
    assert_eq!(Vec2::new(10, 20).saturating_add(Vec2::new(-3, 7)), Vec2::new(7, 27));
    assert_eq!(Vec2::new(10, 20).saturating_sub(Vec2::new(-3, 7)), Vec2::new(13, 13));
    assert_eq!(Vec2::new(2, 1).saturating_scale(5), Vec2::new(10, 5));
    assert_eq!(Vec2::new(2, -1).saturating_scale(-3), Vec2::new(-6, 3));
}

#[test]
fn vec2_arithmetic_saturates_at_the_edge() {
    let max = Vec2::new(i32::MAX, i32::MAX);
    let min = Vec2::new(i32::MIN, i32::MIN);
    assert_eq!(max.saturating_add(Vec2::one()), max);
    assert_eq!(min.saturating_sub(Vec2::one()), min);
    assert_eq!(min.saturating_add(max), Vec2::new(-1, -1));
    assert_eq!(max.saturating_sub(min), max);
    assert_eq!(Vec2::new(i32::MAX, i32::MIN).saturating_scale(2), Vec2::new(i32::MAX, i32::MIN));
    assert_eq!(Vec2::new(i32::MIN, 1).saturating_scale(-1), Vec2::new(i32::MAX, -1));
    assert_eq!(min.saturating_scale(i32::MIN), max);
}

#[test]
fn rect_is_half_open() {
    let r = Rect::new(Vec2::new(10, 20), Vec2::new(30, 40));
    assert!(r.contains(Vec2::new(10, 20)));
    assert!(r.contains(Vec2::new(39, 59)));
    assert!(r.contains(Vec2::new(25, 30)));
    assert!(!r.contains(Vec2::new(40, 30)));
    assert!(!r.contains(Vec2::new(25, 60)));
    assert!(!r.contains(Vec2::new(9, 30)));
    assert!(!r.contains(Vec2::new(25, 19)));
}

#[test]
fn rect_without_extent_holds_no_point() {
    let empty = Rect::new(Vec2::new(5, 5), Vec2::new(0, 10));
    assert!(!empty.contains(Vec2::new(5, 5)));
    let negative = Rect::new(Vec2::new(5, 5), Vec2::new(-3, -3));
    assert!(!negative.contains(Vec2::new(5, 5)));
    assert!(!negative.contains(Vec2::new(3, 3)));
}

#[test]
fn rect_at_the_edge_of_the_grid() {
    let r = Rect::new(Vec2::new(i32::MAX, i32::MAX), Vec2::new(4, 4));
    assert!(r.contains(Vec2::new(i32::MAX, i32::MAX)));
    assert!(!r.contains(Vec2::new(i32::MAX - 1, i32::MAX)));
    let far = Rect::new(Vec2::new(i32::MIN, i32::MIN), Vec2::new(i32::MAX, i32::MAX));
    assert!(far.contains(Vec2::new(i32::MIN, -2)));
    assert!(!far.contains(Vec2::new(-1, -1)));
}

#[test]
fn color_keeps_its_channels() {
    let c = Color::new(1, 2, 3, 4);
    assert_eq!((c.r, c.g, c.b, c.a), (1, 2, 3, 4));
}

#[test]
fn cursor_vertical_flow() {
    let mut cursor = Cursor::new(Vec2::new(12, 36), 2);
    assert_eq!(cursor.fit(Vec2::new(20, 16), Layout::Vertical), Vec2::new(12, 36));
    assert_eq!(cursor.offset, 18);
    assert_eq!(cursor.line_height, 16);
    assert_eq!(cursor.extent, 18);
    assert_eq!(cursor.fit(Vec2::new(5, 10), Layout::Vertical), Vec2::new(12, 54));
    assert_eq!(cursor.offset, 30);
    assert_eq!(cursor.line_height, 10);
    assert_eq!(cursor.extent, 30);
}

#[test]
fn cursor_honors_indentation_and_scroll() {
    let mut cursor = Cursor::new(Vec2::new(12, 36), 2);
    cursor.indent(5);
    cursor.scroll = Vec2::new(3, 7);
    assert_eq!(cursor.fit(Vec2::new(1, 1), Layout::Vertical), Vec2::new(14, 29));
    cursor.indent(-5);
    assert_eq!(cursor.ident, 0);
    assert_eq!(cursor.fit(Vec2::new(1, 1), Layout::Vertical), Vec2::new(9, 32));
}

#[test]
fn cursor_free_placement_is_verbatim() {
    let mut cursor = Cursor::new(Vec2::new(12, 36), 2);
    cursor.indent(5);
    let before = cursor;
    assert_eq!(
        cursor.fit(Vec2::new(50, 60), Layout::Free(Vec2::new(-7, 1000))),
        Vec2::new(-7, 1000)
    );
    assert_eq!(cursor, before);
}

#[test]
fn cursor_takes_zero_and_negative_sizes_as_they_are() {
    let mut cursor = Cursor::new(Vec2::new(0, 0), 2);
    assert_eq!(cursor.fit(Vec2::new(0, 0), Layout::Vertical), Vec2::new(0, 0));
    assert_eq!(cursor.offset, 2);
    assert_eq!(cursor.fit(Vec2::new(-4, -10), Layout::Vertical), Vec2::new(0, 2));
    assert_eq!(cursor.offset, -6);
    assert_eq!(cursor.line_height, -10);
    assert_eq!(cursor.extent, 2);
}

#[test]
fn cursor_saturates_instead_of_overflowing() {
    let mut cursor = Cursor::new(Vec2::new(i32::MAX, i32::MAX), i32::MAX);
    assert_eq!(
        cursor.fit(Vec2::new(i32::MAX, i32::MAX), Layout::Vertical),
        Vec2::new(i32::MAX, i32::MAX)
    );
    assert_eq!(cursor.offset, i32::MAX);
    cursor.indent(i32::MAX);
    cursor.indent(i32::MAX);
    assert_eq!(cursor.ident, i32::MAX);
    cursor.indent(i32::MIN);
    assert_eq!(cursor.ident, -1);
}

#[test]
fn cursor_reset_starts_the_flow_over() {
    let mut cursor = Cursor::new(Vec2::new(12, 36), 2);
    cursor.fit(Vec2::new(20, 16), Layout::Vertical);
    cursor.indent(5);
    cursor.scroll = Vec2::new(0, 4);
    cursor.reset();
    assert_eq!(cursor.offset, 0);
    assert_eq!(cursor.ident, 0);
    assert_eq!(cursor.line_height, 0);
    assert_eq!(cursor.extent, 0);
    assert_eq!(cursor.extent_previous, 18);
    assert_eq!(cursor.origin, Vec2::new(12, 36));
    assert_eq!(cursor.scroll, Vec2::new(0, 4));
    assert_eq!(cursor.spacing, 2);
}
