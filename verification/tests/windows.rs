use megaui::{Alignment, Button, Color, DrawCommand, Rect, Style, TextMetrics, Ui, Vec2, Window};

fn grey(value: u8, alpha: u8) -> Color {
    Color::new(value, value, value, alpha)
}

fn main_window() -> Window {
    Window::new(1, Vec2::new(10, 20), Vec2::new(200, 100))
}

fn side_window() -> Window {
    Window::new(2, Vec2::new(50, 50), Vec2::new(100, 100))
}

fn declare(ui: &mut Ui, window: Window) -> bool {
    let token = window.begin(ui);
    token.end(ui)
}

#[test]
fn new_context_is_empty() {
    let ui = Ui::new();
    assert_eq!(ui.window_ids(), Vec::<u64>::new());
    assert_eq!(ui.focused_window(), None);
    assert_eq!(ui.active_window(), None);
    assert!(ui.window_state(1).is_none());
    assert!(!ui.is_focused(1));
    assert_eq!(ui.stored(1), None);
    assert_eq!(ui.style().margin, 2);
}

#[test]
fn window_builder_defaults() {
    let w = main_window();
    assert_eq!(w.id, 1);
    assert_eq!(w.position, Vec2::new(10, 20));
    assert_eq!(w.size, Vec2::new(200, 100));
    assert!(!w.close_button);
    assert!(w.enabled);
    assert!(w.movable);
    assert!(w.titlebar);
    assert_eq!(w.label, None);
}

#[test]
fn window_builder_setters() {
    let w = main_window()
        .label("main")
        .movable(false)
        .close_button(true)
        .titlebar(false)
        .enabled(false);
    assert_eq!(w.label, Some("main".to_string()));
    assert!(!w.movable);
    assert!(w.close_button);
    assert!(!w.titlebar);
    assert!(!w.enabled);
    assert_eq!(w.id, 1);
    assert_eq!(w.position, Vec2::new(10, 20));
    assert_eq!(w.size, Vec2::new(200, 100));
}

#[test]
fn fresh_window_is_focused_at_once() {
    let mut ui = Ui::new();
    let token = main_window().begin(&mut ui);
    assert!(ui.is_focused(1));
    assert_eq!(ui.focused_window(), Some(1));
    assert_eq!(ui.active_window(), Some(1));
    assert!(token.end(&mut ui));
    assert_eq!(ui.active_window(), None);
    assert!(ui.is_focused(1));
}

#[test]
fn fresh_window_draws_its_frame_as_focused() {
    let mut ui = Ui::new();
    let token = main_window().label("main").begin(&mut ui);
    {
        let state = ui.window_state(1).unwrap();
        assert_eq!(
            state.draw_commands.commands,
            vec![
                DrawCommand::DrawRect {
                    rect: Rect::new(Vec2::new(10, 20), Vec2::new(200, 100)),
                    stroke: Some(grey(68, 255)),
                    fill: grey(238, 255),
                },
                DrawCommand::DrawLabel {
                    label: "main".to_string(),
                    position: Vec2::new(12, 22),
                    color: Some(grey(0, 255)),
                    alignment: Alignment::Left,
                },
                DrawCommand::DrawLine {
                    start: Vec2::new(10, 34),
                    end: Vec2::new(210, 34),
                    color: grey(68, 255),
                },
                DrawCommand::Clip {
                    rect: Some(Rect::new(Vec2::new(10, 34), Vec2::new(200, 86))),
                },
            ]
        );
        assert_eq!(
            state.draw_commands.clipping_zone,
            Some(Rect::new(Vec2::new(10, 34), Vec2::new(200, 86)))
        );
        assert_eq!(state.cursor.origin, Vec2::new(12, 36));
        assert_eq!(state.title_height, 14);
        assert!(state.active);
        assert!(!state.was_active);
        assert!(!state.want_close);
    }
    assert!(token.end(&mut ui));
    let state = ui.window_state(1).unwrap();
    assert_eq!(state.draw_commands.commands.len(), 5);
    assert_eq!(state.draw_commands.commands[4], DrawCommand::Clip { rect: None });
    assert_eq!(state.draw_commands.clipping_zone, None);
}

#[test]
fn window_without_titlebar() {
    let mut ui = Ui::new();
    let token = main_window().label("hidden").titlebar(false).begin(&mut ui);
    let state = ui.window_state(1).unwrap();
    assert_eq!(state.title_height, 0);
    assert_eq!(state.cursor.origin, Vec2::new(12, 22));
    assert_eq!(
        state.draw_commands.commands,
        vec![
            DrawCommand::DrawRect {
                rect: Rect::new(Vec2::new(10, 20), Vec2::new(200, 100)),
                stroke: Some(grey(68, 255)),
                fill: grey(238, 255),
            },
            DrawCommand::Clip { rect: Some(Rect::new(Vec2::new(10, 20), Vec2::new(200, 100))) },
        ]
    );
    assert!(token.end(&mut ui));
}

#[test]
fn window_rects() {
    let mut ui = Ui::new();
    declare(&mut ui, main_window());
    let state = ui.window_state(1).unwrap();
    assert_eq!(state.full_rect(), Rect::new(Vec2::new(10, 20), Vec2::new(200, 100)));
    assert_eq!(state.title_rect(), Rect::new(Vec2::new(10, 20), Vec2::new(200, 14)));
    assert_eq!(state.content_rect(), Rect::new(Vec2::new(10, 34), Vec2::new(200, 86)));
}

#[test]
fn second_fresh_window_takes_the_focus() {
    let mut ui = Ui::new();
    declare(&mut ui, main_window());
    declare(&mut ui, side_window());
    assert_eq!(ui.window_ids(), vec![1, 2]);
    assert_eq!(ui.focused_window(), Some(2));
    assert!(!ui.is_focused(1));
}

#[test]
fn focus_stays_over_frames() {
    let mut ui = Ui::new();
    declare(&mut ui, main_window());
    declare(&mut ui, side_window());
    ui.new_frame();
    declare(&mut ui, main_window());
    declare(&mut ui, side_window());
    assert_eq!(ui.window_ids(), vec![1, 2]);
    assert_eq!(ui.focused_window(), Some(2));
    let state = ui.window_state(1).unwrap();
    assert_eq!(
        state.draw_commands.commands[0],
        DrawCommand::DrawRect {
            rect: Rect::new(Vec2::new(10, 20), Vec2::new(200, 100)),
            stroke: Some(grey(173, 255)),
            fill: grey(238, 227),
        }
    );
    assert!(state.was_active);
}

#[test]
fn press_on_background_window_refocuses_it() {
    let mut ui = Ui::new();
    declare(&mut ui, main_window());
    declare(&mut ui, side_window());
    ui.new_frame();
    ui.mouse_down(Vec2::new(20, 60));
    assert_eq!(ui.window_ids(), vec![2, 1]);
    assert_eq!(ui.focused_window(), Some(1));
    assert!(ui.is_focused(1));
    assert!(!ui.is_focused(2));
}

#[test]
fn press_in_overlap_goes_to_the_top_window() {
    let mut ui = Ui::new();
    declare(&mut ui, main_window());
    declare(&mut ui, side_window());
    ui.new_frame();
    ui.mouse_down(Vec2::new(60, 60));
    assert_eq!(ui.window_ids(), vec![1, 2]);
    assert_eq!(ui.focused_window(), Some(2));
    ui.mouse_up(Vec2::new(60, 60));
    ui.mouse_down(Vec2::new(20, 60));
    assert_eq!(ui.focused_window(), Some(1));
    ui.mouse_up(Vec2::new(20, 60));
    ui.mouse_down(Vec2::new(60, 60));
    assert_eq!(ui.window_ids(), vec![2, 1]);
    assert_eq!(ui.focused_window(), Some(1));
}

#[test]
fn press_beside_all_windows_changes_no_focus() {
    let mut ui = Ui::new();
    declare(&mut ui, main_window());
    declare(&mut ui, side_window());
    ui.new_frame();
    ui.mouse_down(Vec2::new(500, 500));
    assert_eq!(ui.window_ids(), vec![1, 2]);
    assert_eq!(ui.focused_window(), Some(2));
    ui.mouse_down(Vec2::new(210, 60));
    assert_eq!(ui.window_ids(), vec![1, 2]);
}

#[test]
fn window_that_left_the_screen_takes_no_press() {
    let mut ui = Ui::new();
    declare(&mut ui, main_window());
    declare(&mut ui, side_window());
    ui.new_frame();
    declare(&mut ui, side_window());
    ui.new_frame();
    ui.mouse_down(Vec2::new(20, 60));
    assert_eq!(ui.window_ids(), vec![1, 2]);
    assert_eq!(ui.focused_window(), Some(2));
}

#[test]
fn window_that_comes_back_is_focused_again() {
    let mut ui = Ui::new();
    declare(&mut ui, main_window());
    declare(&mut ui, side_window());
    ui.new_frame();
    declare(&mut ui, side_window());
    ui.new_frame();
    declare(&mut ui, side_window());
    declare(&mut ui, main_window());
    assert_eq!(ui.window_ids(), vec![2, 1]);
    assert_eq!(ui.focused_window(), Some(1));
}

#[test]
fn disabled_window_never_has_the_focus() {
    let mut ui = Ui::new();
    declare(&mut ui, main_window());
    declare(&mut ui, side_window().enabled(false));
    assert_eq!(ui.window_ids(), vec![2, 1]);
    assert_eq!(ui.focused_window(), Some(1));
    assert!(!ui.is_focused(2));
    ui.new_frame();
    ui.mouse_down(Vec2::new(120, 130));
    assert_eq!(ui.window_ids(), vec![2, 1]);
    assert_eq!(ui.focused_window(), Some(1));
    ui.focus_window(2);
    assert_eq!(ui.window_ids(), vec![2, 1]);
    assert!(!ui.is_focused(2));
}

#[test]
fn disabling_the_top_window_leaves_nothing_focused() {
    let mut ui = Ui::new();
    declare(&mut ui, main_window());
    declare(&mut ui, side_window());
    ui.new_frame();
    declare(&mut ui, main_window());
    declare(&mut ui, side_window().enabled(false));
    assert_eq!(ui.window_ids(), vec![1, 2]);
    assert_eq!(ui.focused_window(), None);
    assert!(!ui.is_focused(2));
    assert!(!ui.is_focused(1));
}

#[test]
fn focus_window_raises_and_ignores_unknown() {
    let mut ui = Ui::new();
    declare(&mut ui, main_window());
    declare(&mut ui, side_window());
    ui.focus_window(1);
    assert_eq!(ui.window_ids(), vec![2, 1]);
    ui.focus_window(99);
    assert_eq!(ui.window_ids(), vec![2, 1]);
    ui.focus_window(1);
    assert_eq!(ui.window_ids(), vec![2, 1]);
}

#[test]
fn dragging_the_title_bar_moves_the_window() {
    let mut ui = Ui::new();
    declare(&mut ui, main_window());
    ui.new_frame();
    ui.mouse_down(Vec2::new(15, 25));
    assert_eq!(ui.window_state(1).unwrap().grabbed_at, Some(Vec2::new(5, 5)));
    ui.mouse_move(Vec2::new(100, 100));
    {
        let state = ui.window_state(1).unwrap();
        assert_eq!(state.position, Vec2::new(95, 95));
        assert_eq!(state.cursor.origin, Vec2::new(97, 111));
    }
    ui.mouse_move(Vec2::new(0, 0));
    assert_eq!(ui.window_state(1).unwrap().position, Vec2::new(-5, -5));
    ui.mouse_up(Vec2::new(0, 0));
    assert_eq!(ui.window_state(1).unwrap().grabbed_at, None);
    ui.mouse_move(Vec2::new(300, 300));
    assert_eq!(ui.window_state(1).unwrap().position, Vec2::new(-5, -5));
    declare(&mut ui, main_window());
    assert_eq!(ui.window_state(1).unwrap().position, Vec2::new(-5, -5));
}

#[test]
fn press_in_the_content_does_not_drag() {
    let mut ui = Ui::new();
    declare(&mut ui, main_window());
    ui.new_frame();
    ui.mouse_down(Vec2::new(15, 34));
    assert_eq!(ui.window_state(1).unwrap().grabbed_at, None);
    ui.mouse_move(Vec2::new(100, 100));
    assert_eq!(ui.window_state(1).unwrap().position, Vec2::new(10, 20));
}

#[test]
fn window_that_is_not_movable_stays_where_it_is_declared() {
    let mut ui = Ui::new();
    declare(&mut ui, main_window().movable(false));
    ui.new_frame();
    ui.mouse_down(Vec2::new(15, 25));
    assert_eq!(ui.window_state(1).unwrap().grabbed_at, None);
    ui.mouse_move(Vec2::new(100, 100));
    assert_eq!(ui.window_state(1).unwrap().position, Vec2::new(10, 20));
    declare(&mut ui, Window::new(1, Vec2::new(30, 40), Vec2::new(200, 100)).movable(false));
    let state = ui.window_state(1).unwrap();
    assert_eq!(state.position, Vec2::new(30, 40));
    assert_eq!(state.cursor.origin, Vec2::new(32, 56));
}

#[test]
fn later_declaration_wins_on_size_and_flags() {
    let mut ui = Ui::new();
    declare(&mut ui, main_window());
    ui.new_frame();
    declare(
        &mut ui,
        Window::new(1, Vec2::new(70, 70), Vec2::new(50, 60)).titlebar(false),
    );
    let state = ui.window_state(1).unwrap();
    assert_eq!(state.position, Vec2::new(10, 20));
    assert_eq!(state.size, Vec2::new(50, 60));
    assert_eq!(state.title_height, 0);
    assert_eq!(state.cursor.origin, Vec2::new(12, 22));
    assert_eq!(ui.window_ids(), vec![1]);
}

#[test]
fn new_frame_clears_the_windows() {
    let mut ui = Ui::new();
    let token = main_window().begin(&mut ui);
    Button::new("ok").ui(&mut ui);
    token.end(&mut ui);
    ui.new_frame();
    let state = ui.window_state(1).unwrap();
    assert!(state.draw_commands.commands.is_empty());
    assert!(state.was_active);
    assert!(!state.active);
    assert_eq!(state.cursor.offset, 0);
    assert_eq!(state.cursor.extent, 0);
    assert_eq!(state.cursor.extent_previous, 18);
    assert_eq!(state.position, Vec2::new(10, 20));
    assert_eq!(ui.active_window(), None);
    ui.new_frame();
    let state = ui.window_state(1).unwrap();
    assert!(!state.was_active);
    assert_eq!(state.cursor.extent_previous, 0);
}

#[test]
fn close_button_closes_once() {
    let mut ui = Ui::new();
    assert!(declare(&mut ui, main_window().close_button(true)));
    ui.new_frame();
    ui.mouse_down(Vec2::new(200, 25));
    ui.mouse_up(Vec2::new(200, 25));
    let token = main_window().close_button(true).begin(&mut ui);
    assert!(ui.window_state(1).unwrap().want_close);
    assert!(!token.end(&mut ui));
    ui.new_frame();
    assert!(declare(&mut ui, main_window().close_button(true)));
    ui.new_frame();
    assert!(declare(&mut ui, main_window().close_button(true)));
}

#[test]
fn close_button_draws_its_mark() {
    let mut ui = Ui::new();
    let token = main_window().close_button(true).begin(&mut ui);
    let state = ui.window_state(1).unwrap();
    assert_eq!(state.draw_commands.commands.len(), 4);
    assert_eq!(
        state.draw_commands.commands[2],
        DrawCommand::DrawLabel {
            label: "X".to_string(),
            position: Vec2::new(200, 23),
            color: Some(grey(0, 255)),
            alignment: Alignment::Left,
        }
    );
    assert!(token.end(&mut ui));
}

#[test]
fn close_rectangle_edges() {
    for (p, closes) in [
        (Vec2::new(195, 20), true),
        (Vec2::new(214, 39), true),
        (Vec2::new(194, 25), false),
        (Vec2::new(215, 25), false),
        (Vec2::new(200, 40), false),
        (Vec2::new(200, 19), false),
    ] {
        let mut ui = Ui::new();
        declare(&mut ui, main_window().close_button(true));
        ui.new_frame();
        ui.mouse_up(p);
        assert_eq!(declare(&mut ui, main_window().close_button(true)), !closes);
    }
}

#[test]
fn release_closes_nothing_without_a_close_button() {
    let mut ui = Ui::new();
    declare(&mut ui, main_window());
    ui.new_frame();
    ui.mouse_up(Vec2::new(200, 25));
    assert!(declare(&mut ui, main_window()));
}

#[test]
fn release_does_not_close_a_window_without_focus() {
    let mut ui = Ui::new();
    declare(&mut ui, main_window().close_button(true));
    declare(&mut ui, Window::new(2, Vec2::new(300, 300), Vec2::new(50, 50)));
    ui.new_frame();
    ui.mouse_up(Vec2::new(200, 25));
    assert!(declare(&mut ui, main_window().close_button(true)));
}

#[test]
fn release_does_not_close_behind_a_modal_or_a_grab() {
    let mut ui = Ui::new();
    declare(&mut ui, main_window().close_button(true));
    ui.new_frame();
    ui.mouse_up(Vec2::new(200, 25));
    ui.set_modal_active(true);
    assert!(declare(&mut ui, main_window().close_button(true)));
    ui.new_frame();
    ui.mouse_up(Vec2::new(200, 25));
    ui.set_cursor_grabbed(true);
    assert!(declare(&mut ui, main_window().close_button(true)));
    ui.set_cursor_grabbed(false);
    ui.new_frame();
    ui.mouse_up(Vec2::new(200, 25));
    assert!(!declare(&mut ui, main_window().close_button(true)));
}

#[test]
fn window_ui_runs_its_content_once() {
    let mut ui = Ui::new();
    let mut runs = 0;
    let mut active_inside = None;
    let opened = main_window().ui(&mut ui, |ui| {
        runs += 1;
        active_inside = ui.active_window();
        ui.button(None, "ok");
    });
    assert!(opened);
    assert_eq!(runs, 1);
    assert_eq!(active_inside, Some(1));
    assert_eq!(ui.active_window(), None);
    assert_eq!(ui.window_state(1).unwrap().draw_commands.commands.len(), 6);
}

#[test]
fn ui_window_shorthand() {
    let mut ui = Ui::new();
    let mut ran = false;
    let opened = ui.window(4, Vec2::new(1, 2), Vec2::new(30, 40), |_ui| {
        ran = true;
    });
    assert!(opened);
    assert!(ran);
    let state = ui.window_state(4).unwrap();
    assert_eq!(state.position, Vec2::new(1, 2));
    assert_eq!(state.size, Vec2::new(30, 40));
    assert!(state.movable);
    assert!(state.enabled);
    assert_eq!(state.title_height, 14);
    assert_eq!(ui.focused_window(), Some(4));
}

#[test]
fn wheel_scrolls_within_the_overflow() {
    let mut ui = Ui::new();
    let fill = |ui: &mut Ui| {
        let token = main_window().begin(ui);
        for _ in 0..10 {
            Button::new("ok").ui(ui);
        }
        token.end(ui);
    };
    fill(&mut ui);
    assert_eq!(ui.window_state(1).unwrap().cursor.extent, 180);
    ui.new_frame();
    ui.mouse_move(Vec2::new(50, 60));
    ui.mouse_wheel(Vec2::new(0, -30));
    fill(&mut ui);
    {
        let state = ui.window_state(1).unwrap();
        assert_eq!(state.cursor.scroll, Vec2::new(0, 30));
        assert_eq!(
            state.draw_commands.commands[3],
            DrawCommand::DrawRect {
                rect: Rect::new(Vec2::new(12, 6), Vec2::new(20, 16)),
                stroke: None,
                fill: grey(204, 235),
            }
        );
    }
    ui.new_frame();
    ui.mouse_wheel(Vec2::new(0, -100));
    fill(&mut ui);
    assert_eq!(ui.window_state(1).unwrap().cursor.scroll, Vec2::new(0, 94));
    ui.new_frame();
    fill(&mut ui);
    assert_eq!(ui.window_state(1).unwrap().cursor.scroll, Vec2::new(0, 94));
    ui.new_frame();
    ui.mouse_wheel(Vec2::new(0, 200));
    fill(&mut ui);
    assert_eq!(ui.window_state(1).unwrap().cursor.scroll, Vec2::new(0, 0));
}

#[test]
fn wheel_is_ignored_beside_the_content_and_without_focus() {
    let mut ui = Ui::new();
    let fill = |ui: &mut Ui| {
        let token = main_window().begin(ui);
        for _ in 0..10 {
            Button::new("ok").ui(ui);
        }
        token.end(ui);
    };
    fill(&mut ui);
    ui.new_frame();
    ui.mouse_move(Vec2::new(50, 25));
    ui.mouse_wheel(Vec2::new(0, -30));
    fill(&mut ui);
    assert_eq!(ui.window_state(1).unwrap().cursor.scroll, Vec2::new(0, 0));
    declare(&mut ui, Window::new(2, Vec2::new(300, 300), Vec2::new(50, 50)));
    ui.new_frame();
    ui.mouse_move(Vec2::new(50, 60));
    ui.mouse_wheel(Vec2::new(0, -30));
    fill(&mut ui);
    assert!(!ui.is_focused(1));
    assert_eq!(ui.window_state(1).unwrap().cursor.scroll, Vec2::new(0, 0));
}

#[test]
fn content_that_fits_cannot_be_scrolled() {
    let mut ui = Ui::new();
    let token = main_window().begin(&mut ui);
    Button::new("ok").ui(&mut ui);
    token.end(&mut ui);
    ui.new_frame();
    ui.mouse_move(Vec2::new(50, 60));
    ui.mouse_wheel(Vec2::new(0, -30));
    declare(&mut ui, main_window());
    assert_eq!(ui.window_state(1).unwrap().cursor.scroll, Vec2::new(0, 0));
}

#[test]
fn custom_style_and_metrics() {
    let mut style = Style::default();
    style.margin = 5;
    style.title_height = 20;
    style.window_background_focused = Color::new(1, 2, 3, 4);
    let mut ui = Ui::with_style(style, TextMetrics { advance: 10, line_height: 12 });
    let token = main_window().begin(&mut ui);
    assert!(Button::new("abc").ui(&mut ui) == false);
    token.end(&mut ui);
    let state = ui.window_state(1).unwrap();
    assert_eq!(state.cursor.origin, Vec2::new(15, 45));
    assert_eq!(
        state.draw_commands.commands[0],
        DrawCommand::DrawRect {
            rect: Rect::new(Vec2::new(10, 20), Vec2::new(200, 100)),
            stroke: Some(grey(68, 255)),
            fill: Color::new(1, 2, 3, 4),
        }
    );
    assert_eq!(
        state.draw_commands.commands[3],
        DrawCommand::DrawRect {
            rect: Rect::new(Vec2::new(15, 45), Vec2::new(34, 14)),
            stroke: None,
            fill: grey(204, 235),
        }
    );
    assert_eq!(state.cursor.offset, 19);
    let mut other = Style::default();
    other.margin_button = 7;
    ui.set_style(other);
    assert_eq!(ui.style().margin_button, 7);
    assert_eq!(ui.style().margin, 2);
}

#[test]
fn close_request_from_outside_closes_for_this_frame() {
    let mut ui = Ui::new();
    let token = main_window().begin(&mut ui);
    assert!(!ui.window_state(1).unwrap().want_close);
    ui.close_current_window();
    assert!(ui.window_state(1).unwrap().want_close);
    assert!(!token.end(&mut ui));
    ui.new_frame();
    assert!(declare(&mut ui, main_window()));
}
