//! The context as a mathematical value, and what each operation makes of
//! it.

use crate::draw_command::TextMetrics;
use crate::style::Style;
use crate::types::{Id, Vec2};
use crate::ui::input::{InputCharacter, InputView};
use crate::ui::window_state::WindowView;
use vstd::prelude::*;

verus! {

/// The context as a mathematical value.
#[verifier::ext_equal]
pub ghost struct UiView {
    pub input: InputView,
    pub style: Style,
    pub metrics: TextMetrics,
    /// The window stack in z-order: the last window is the topmost.
    pub windows: Seq<WindowView>,
    pub storage: Map<Id, u32>,
    pub active_window: Option<Id>,
}

/// The metrics a new context measures text with.
pub open spec fn default_metrics() -> TextMetrics {
    TextMetrics { advance: 8, line_height: 14 }
}

/// The stack with the window at `i` moved to the top. The others keep
/// their order.
pub open spec fn raised(windows: Seq<WindowView>, i: int) -> Seq<WindowView> {
    windows.remove(i).push(windows[i])
}

/// The topmost window that a press at `p` lands on, if there is one: the
/// windows are asked from the top of the stack down.
pub open spec fn top_hit(windows: Seq<WindowView>, p: Vec2) -> Option<int>
    decreases windows.len(),
{
    if windows.len() == 0 {
        None
    } else if windows.last().accepts(p) {
        Some(windows.len() - 1)
    } else {
        top_hit(windows.drop_last(), p)
    }
}

impl UiView {
    /// A context without windows or stored state.
    pub open spec fn initial(style: Style, metrics: TextMetrics) -> UiView {
        UiView {
            input: InputView::idle(),
            style,
            metrics,
            windows: Seq::empty(),
            storage: Map::empty(),
            active_window: None,
        }
    }

    /// No two windows share an identifier, and the window that is being
    /// declared is on the stack.
    pub open spec fn wf(self) -> bool {
        &&& forall|i: int, j: int|
            0 <= i < j < self.windows.len() ==> self.windows[i].id != self.windows[j].id
        &&& self.active_window matches Some(id) ==> self.has_window(id)
    }

    pub open spec fn has_window(self, id: Id) -> bool {
        exists|i: int| 0 <= i < self.windows.len() && self.windows[i].id == id
    }

    /// Where on the stack the window `id` stands.
    pub open spec fn index_of(self, id: Id) -> int
        recommends
            self.has_window(id),
    {
        choose|i: int| 0 <= i < self.windows.len() && self.windows[i].id == id
    }

    pub open spec fn window(self, id: Id) -> WindowView
        recommends
            self.has_window(id),
    {
        self.windows[self.index_of(id)]
    }

    /// The window that is being declared.
    pub open spec fn active(self) -> WindowView
        recommends
            self.active_window is Some,
    {
        self.window(self.active_window->0)
    }

    /// Whether `id` has the focus: it is the topmost window and is enabled.
    pub open spec fn is_focused(self, id: Id) -> bool {
        self.windows.len() > 0 && self.windows.last().id == id && self.windows.last().enabled
    }

    /// The one window that has the focus, if any has.
    pub open spec fn focused_window(self) -> Option<Id> {
        if self.windows.len() > 0 && self.windows.last().enabled {
            Some(self.windows.last().id)
        } else {
            None
        }
    }

    /// Whether the window that is being declared has the focus.
    pub open spec fn focused(self) -> bool {
        self.active_window matches Some(id) && self.is_focused(id)
    }

    /// The context with `window` in place of the window that is being
    /// declared.
    pub open spec fn with_active(self, window: WindowView) -> UiView
        recommends
            self.active_window is Some,
    {
        UiView {
            windows: self.windows.update(self.index_of(self.active_window->0), window),
            ..self
        }
    }

    pub open spec fn with_storage(self, storage: Map<Id, u32>) -> UiView {
        UiView { storage, ..self }
    }

    pub open spec fn with_input(self, input: InputView) -> UiView {
        UiView { input, ..self }
    }

    /// The context at the start of the next frame.
    pub open spec fn next_frame(self) -> UiView {
        UiView {
            input: self.input.reset(),
            windows: self.windows.map_values(|w: WindowView| w.next_frame()),
            active_window: None,
            ..self
        }
    }

    /// The context after the pointer's button went down at `p`. The topmost
    /// window that the press lands on comes to the top of the stack.
    pub open spec fn mouse_down(self, p: Vec2) -> UiView {
        let input = InputView {
            mouse_position: p,
            is_mouse_down: true,
            click_down: true,
            ..self.input
        };
        match top_hit(self.windows, p) {
            Some(i) => UiView {
                input,
                windows: raised(self.windows.update(i, self.windows[i].pressed_at(p)), i),
                ..self
            },
            None => UiView { input, ..self },
        }
    }

    /// The context after the pointer's button went up at `p`.
    pub open spec fn mouse_up(self, p: Vec2) -> UiView {
        UiView {
            input: InputView {
                mouse_position: p,
                is_mouse_down: false,
                click_up: true,
                ..self.input
            },
            windows: self.windows.map_values(|w: WindowView| w.released()),
            ..self
        }
    }

    /// The context after the pointer moved to `p`.
    pub open spec fn mouse_move(self, p: Vec2) -> UiView {
        UiView {
            input: InputView { mouse_position: p, ..self.input },
            windows: self.windows.map_values(|w: WindowView| w.dragged_to(p)),
            ..self
        }
    }

    /// The context after `event` was queued.
    pub open spec fn key_event(self, event: InputCharacter) -> UiView {
        self.with_input(
            InputView { input_buffer: self.input.input_buffer.push(event), ..self.input },
        )
    }

    /// The context after the window `id` came to the top of the stack. A
    /// window that is unknown or not enabled changes nothing.
    pub open spec fn focus_window(self, id: Id) -> UiView {
        if self.has_window(id) && self.window(id).enabled {
            UiView { windows: raised(self.windows, self.index_of(id)), ..self }
        } else {
            self
        }
    }

    /// The context after the declaration of the window `id` began. A window
    /// that is new goes to the bottom of the stack.
    pub open spec fn begin_window(
        self,
        id: Id,
        position: Vec2,
        size: Vec2,
        title_height: i32,
        movable: bool,
        enabled: bool,
    ) -> UiView {
        if self.has_window(id) {
            UiView {
                windows: self.windows.update(
                    self.index_of(id),
                    self.window(id).declared(position, size, title_height, movable, enabled),
                ),
                active_window: Some(id),
                ..self
            }
        } else {
            UiView {
                windows: seq![
                    WindowView::fresh(
                        id,
                        position,
                        size,
                        title_height,
                        self.style.margin,
                        movable,
                        enabled,
                        self.metrics,
                    ).declared(position, size, title_height, movable, enabled),
                ] + self.windows,
                active_window: Some(id),
                ..self
            }
        }
    }

    /// The context after the declaration of the window ended.
    pub open spec fn end_window(self) -> UiView {
        UiView { active_window: None, ..self }
    }
}

/// In a well-formed context each window is found at the place it stands.
pub proof fn lemma_index_of(ui: UiView, i: int)
    requires
        ui.wf(),
        0 <= i < ui.windows.len(),
    ensures
        ui.has_window(ui.windows[i].id),
        ui.index_of(ui.windows[i].id) == i,
        ui.window(ui.windows[i].id) == ui.windows[i],
{
}

/// Where a window is found in a well-formed context.
pub proof fn lemma_window_found(ui: UiView, id: Id)
    requires
        ui.wf(),
        ui.has_window(id),
    ensures
        0 <= ui.index_of(id) < ui.windows.len(),
        ui.window(id).id == id,
{
}

/// To put another state of the same window in the place of the window that
/// is being declared keeps the context well formed, and that state is then
/// what the context holds of the window.
pub proof fn lemma_with_active(ui: UiView, window: WindowView)
    requires
        ui.wf(),
        ui.active_window is Some,
        window.id == ui.active().id,
    ensures
        ui.with_active(window).wf(),
        ui.with_active(window).active() == window,
        ui.with_active(window).active_window == ui.active_window,
        window.enabled == ui.active().enabled ==> ui.with_active(window).focused() == ui.focused(),
        ui.with_active(ui.active()) == ui,
{
    let id = ui.active_window->0;
    let i = ui.index_of(id);
    let after = ui.with_active(window);
    assert(after.windows[i].id == id);
    assert forall|a: int, b: int| 0 <= a < b < after.windows.len() implies after.windows[a].id
        != after.windows[b].id by {
        assert(after.windows[a].id == ui.windows[a].id);
        assert(after.windows[b].id == ui.windows[b].id);
    }
    assert(after.index_of(id) == i);
    assert(ui.with_active(ui.active()).windows =~= ui.windows);
}

/// A stack with the same identifiers in the same places is as well formed
/// as the one it came from.
pub proof fn lemma_same_ids_wf(before: UiView, after: UiView)
    requires
        before.wf(),
        after.windows.len() == before.windows.len(),
        forall|i: int| 0 <= i < before.windows.len() ==> after.windows[i].id == before.windows[i].id,
        after.active_window == before.active_window || after.active_window is None,
    ensures
        after.wf(),
{
    if after.active_window is Some {
        let id = after.active_window->0;
        let i = before.index_of(id);
        assert(after.windows[i].id == id);
    }
}

/// To raise a window keeps the context well formed.
pub proof fn lemma_raised_wf(ui: UiView, i: int)
    requires
        ui.wf(),
        0 <= i < ui.windows.len(),
    ensures
        (UiView { windows: raised(ui.windows, i), ..ui }).wf(),
{
    let after = UiView { windows: raised(ui.windows, i), ..ui };
    let n = ui.windows.len() as int;
    assert forall|a: int| 0 <= a < n implies after.windows[a] == (if a < i {
        ui.windows[a]
    } else if a < n - 1 {
        ui.windows[a + 1]
    } else {
        ui.windows[i]
    }) by {}
    if ui.active_window is Some {
        let id = ui.active_window->0;
        let k = ui.index_of(id);
        if k < i {
            assert(after.windows[k].id == id);
        } else if k == i {
            assert(after.windows[n - 1].id == id);
        } else {
            assert(after.windows[k - 1].id == id);
        }
    }
}

/// Where a press lands, if anywhere.
pub proof fn lemma_top_hit(windows: Seq<WindowView>, p: Vec2)
    ensures
        match top_hit(windows, p) {
            Some(i) => 0 <= i < windows.len() && windows[i].accepts(p) && forall|j: int|
                i < j < windows.len() ==> !windows[j].accepts(p),
            None => forall|j: int| 0 <= j < windows.len() ==> !windows[j].accepts(p),
        },
    decreases windows.len(),
{
    if windows.len() > 0 && !windows.last().accepts(p) {
        let rest = windows.drop_last();
        lemma_top_hit(rest, p);
        assert(top_hit(windows, p) == top_hit(rest, p));
        assert forall|j: int| 0 <= j < rest.len() implies rest[j] == windows[j] by {}
        match top_hit(rest, p) {
            Some(i) => {
                assert forall|j: int| i < j < windows.len() implies !windows[j].accepts(p) by {
                    if j < rest.len() {
                        assert(!rest[j].accepts(p));
                    }
                }
            },
            None => {
                assert forall|j: int| 0 <= j < windows.len() implies !windows[j].accepts(p) by {
                    if j < rest.len() {
                        assert(!rest[j].accepts(p));
                    }
                }
            },
        }
    }
}

/// A press keeps the context well formed.
pub proof fn lemma_mouse_down_wf(ui: UiView, p: Vec2)
    requires
        ui.wf(),
    ensures
        ui.mouse_down(p).wf(),
{
    lemma_top_hit(ui.windows, p);
    match top_hit(ui.windows, p) {
        Some(i) => {
            let pressed = UiView {
                windows: ui.windows.update(i, ui.windows[i].pressed_at(p)),
                ..ui
            };
            lemma_same_ids_wf(ui, pressed);
            lemma_raised_wf(pressed, i);
            let raised_ui = UiView { windows: raised(pressed.windows, i), ..pressed };
            lemma_same_ids_wf(raised_ui, ui.mouse_down(p));
        },
        None => {
            lemma_same_ids_wf(ui, ui.mouse_down(p));
        },
    }
}

/// To begin the declaration of a window keeps the context well formed, and
/// the window is then the one that is being declared.
pub proof fn lemma_begin_window_wf(
    ui: UiView,
    id: Id,
    position: Vec2,
    size: Vec2,
    title_height: i32,
    movable: bool,
    enabled: bool,
)
    requires
        ui.wf(),
    ensures
        ui.begin_window(id, position, size, title_height, movable, enabled).wf(),
        ui.begin_window(id, position, size, title_height, movable, enabled).active().id == id,
{
    let after = ui.begin_window(id, position, size, title_height, movable, enabled);
    if ui.has_window(id) {
        let i = ui.index_of(id);
        assert(after.windows[i].id == id);
        assert forall|a: int, b: int| 0 <= a < b < after.windows.len() implies after.windows[a].id
            != after.windows[b].id by {
            assert(after.windows[a].id == ui.windows[a].id);
            assert(after.windows[b].id == ui.windows[b].id);
        }
    } else {
        assert(after.windows[0].id == id);
        assert forall|a: int, b: int| 0 <= a < b < after.windows.len() implies after.windows[a].id
            != after.windows[b].id by {
            assert(after.windows[b].id == ui.windows[b - 1].id);
            if a > 0 {
                assert(after.windows[a].id == ui.windows[a - 1].id);
            }
        }
    }
}

/// A press on a window that is on screen and enabled brings it to the top
/// of the stack, where it has the focus, provided no window above it takes
/// the press. The other windows keep their order.
pub proof fn lemma_press_focuses_window(ui: UiView, p: Vec2, k: int)
    requires
        ui.wf(),
        0 <= k < ui.windows.len(),
        ui.windows[k].accepts(p),
        forall|j: int| k < j < ui.windows.len() ==> !ui.windows[j].accepts(p),
    ensures
        top_hit(ui.windows, p) == Some(k),
        ui.mouse_down(p).is_focused(ui.windows[k].id),
        ui.mouse_down(p).focused_window() == Some(ui.windows[k].id),
        ui.mouse_down(p).windows.len() == ui.windows.len(),
        forall|j: int| 0 <= j < k ==> ui.mouse_down(p).windows[j] == ui.windows[j],
        forall|j: int|
            k <= j < ui.windows.len() - 1 ==> ui.mouse_down(p).windows[j] == ui.windows[j + 1],
{
    lemma_top_hit(ui.windows, p);
}

/// A press that lands on no window leaves the stack as it is.
pub proof fn lemma_press_beside_windows(ui: UiView, p: Vec2)
    requires
        forall|j: int| 0 <= j < ui.windows.len() ==> !ui.windows[j].accepts(p),
    ensures
        ui.mouse_down(p).windows == ui.windows,
{
    lemma_top_hit(ui.windows, p);
}

/// At most one window has the focus, and a window that is not enabled
/// never has it.
pub proof fn lemma_focus_is_unique(ui: UiView, a: Id, b: Id)
    requires
        ui.wf(),
        ui.is_focused(a),
    ensures
        ui.is_focused(b) ==> a == b,
        ui.focused_window() == Some(a),
        ui.has_window(a),
        ui.window(a).enabled,
{
    lemma_index_of(ui, ui.windows.len() - 1);
}

} // verus!
