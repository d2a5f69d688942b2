//! The per-frame context: the input snapshot, the window stack with its
//! focus, the window that is being declared, and the identifier storage.
//!
//! A frame runs like this. The platform layer feeds the events that arrived
//! ([`Ui::mouse_down`] and its kin). The application declares its windows, one
//! after the other, and inside each its widgets. The renderer takes the draw
//! commands of each window, bottom window first. [`Ui::new_frame`] then clears
//! what lasted one frame.

pub mod cursor;
pub mod input;
pub mod model;
pub mod storage;
pub mod window_state;

use crate::draw_command::TextMetrics;
use crate::style::Style;
use crate::types::{Id, Vec2};
use crate::ui::input::{Input, InputCharacter, InputView, Key, KeyCode};
use crate::ui::model::{
    default_metrics, lemma_begin_window_wf, lemma_index_of, lemma_mouse_down_wf, lemma_raised_wf,
    lemma_same_ids_wf, lemma_with_active, raised, top_hit, UiView,
};
use crate::ui::storage::Storage;
use crate::ui::window_state::{WindowState, WindowView};
use vstd::prelude::*;

verus! {

/// The context that every window and widget call goes through.
pub struct Ui {
    input: Input,
    style: Style,
    metrics: TextMetrics,
    /// The window stack in z-order: the last window is the topmost.
    windows: Vec<WindowState>,
    storage_u32: Storage,
    /// The window that is being declared.
    active_window: Option<Id>,
}

/// What a widget call sees of the context: the window that is being
/// declared, the storage, the style, the input snapshot, and whether that
/// window has the focus.
pub(crate) struct WindowContext<'a> {
    pub window: &'a mut WindowState,
    pub storage_u32: &'a mut Storage,
    pub global_style: &'a Style,
    pub input: &'a Input,
    pub focused: bool,
}

/// The views of a stack of windows.
pub open spec fn views_of(windows: Seq<WindowState>) -> Seq<WindowView> {
    Seq::new(windows.len(), |i: int| windows[i]@)
}

impl View for Ui {
    type V = UiView;

    closed spec fn view(&self) -> UiView {
        UiView {
            input: self.input@,
            style: self.style,
            metrics: self.metrics,
            windows: views_of(self.windows@),
            storage: self.storage_u32@,
            active_window: self.active_window,
        }
    }
}

impl Ui {
    /// A context with the default style and metrics.
    pub fn new() -> (ui: Ui)
        ensures
            ui@ == UiView::initial(Style::spec_default(), default_metrics()),
            ui@.wf(),
    {
        Ui::with_style(Style::default(), TextMetrics { advance: 8, line_height: 14 })
    }

    /// A context that draws in `style` and measures text with `metrics`.
    pub fn with_style(style: Style, metrics: TextMetrics) -> (ui: Ui)
        ensures
            ui@ == UiView::initial(style, metrics),
            ui@.wf(),
    {
        let ui = Ui {
            input: Input::default(),
            style,
            metrics,
            windows: Vec::new(),
            storage_u32: Storage::new(),
            active_window: None,
        };
        assert(ui@.windows =~= Seq::empty());
        ui
    }

    /// Where on the stack the window `id` stands.
    fn find(&self, id: Id) -> (found: Option<usize>)
        requires
            self@.wf(),
        ensures
            match found {
                Some(i) => self@.has_window(id) && i == self@.index_of(id) && i
                    < self.windows.len() && self.windows[i as int].id == id,
                None => !self@.has_window(id),
            },
    {
        let mut i: usize = 0;
        while i < self.windows.len()
            invariant
                self@.wf(),
                i <= self.windows.len(),
                forall|j: int| 0 <= j < i ==> self@.windows[j].id != id,
            decreases self.windows.len() - i,
        {
            if self.windows[i].id == id {
                proof {
                    lemma_index_of(self@, i as int);
                }
                return Some(i);
            }
            i += 1;
        }
        None
    }

    /// Whether the window `id` has the focus.
    pub fn is_focused(&self, id: Id) -> (focused: bool)
        ensures
            focused == self@.is_focused(id),
    {
        let n: usize = self.windows.len();
        n > 0 && self.windows[n - 1].id == id && self.windows[n - 1].enabled
    }

    /// The window that has the focus, if any has.
    pub fn focused_window(&self) -> (focused: Option<Id>)
        ensures
            focused == self@.focused_window(),
    {
        let n: usize = self.windows.len();
        if n > 0 && self.windows[n - 1].enabled {
            Some(self.windows[n - 1].id)
        } else {
            None
        }
    }

    /// The window that is being declared, if one is.
    pub fn active_window(&self) -> (active: Option<Id>)
        ensures
            active == self@.active_window,
    {
        self.active_window
    }

    /// The state of the window `id`, if the context knows it.
    pub fn window_state(&self, id: Id) -> (state: Option<&WindowState>)
        requires
            self@.wf(),
        ensures
            match state {
                Some(w) => self@.has_window(id) && w@ == self@.window(id),
                None => !self@.has_window(id),
            },
    {
        match self.find(id) {
            Some(i) => Some(&self.windows[i]),
            None => None,
        }
    }

    /// The identifiers of the windows in z-order, the bottom window first:
    /// the order in which the renderer draws them.
    pub fn window_ids(&self) -> (ids: Vec<Id>)
        ensures
            ids@ == self@.windows.map_values(|w: WindowView| w.id),
    {
        let mut ids: Vec<Id> = Vec::new();
        let mut i: usize = 0;
        while i < self.windows.len()
            invariant
                i <= self.windows.len(),
                ids@ == self@.windows.take(i as int).map_values(|w: WindowView| w.id),
            decreases self.windows.len() - i,
        {
            ids.push(self.windows[i].id);
            assert(ids@ =~= self@.windows.take(i + 1).map_values(|w: WindowView| w.id));
            i += 1;
        }
        assert(self@.windows.take(i as int) =~= self@.windows);
        ids
    }

    /// The input snapshot of this frame.
    pub fn input(&self) -> (input: &Input)
        ensures
            input@ == self@.input,
    {
        &self.input
    }

    /// The style that the widgets draw in.
    pub fn style(&self) -> (style: &Style)
        ensures
            *style == self@.style,
    {
        &self.style
    }

    /// Replaces the style. Windows keep the margin they were made with.
    pub fn set_style(&mut self, style: Style)
        ensures
            final(self)@ == (UiView { style, ..old(self)@ }),
    {
        self.style = style;
    }

    /// The value stored under `id`, if there is one.
    pub fn stored(&self, id: Id) -> (value: Option<u32>)
        ensures
            value == (if self@.storage.contains_key(id) {
                Some(self@.storage[id])
            } else {
                None
            }),
    {
        self.storage_u32.get(id)
    }

    /// Starts the next frame: clears what lasted one frame in the input
    /// snapshot and in each window. No window is being declared afterwards.
    pub fn new_frame(&mut self)
        requires
            old(self)@.wf(),
        ensures
            final(self)@ == old(self)@.next_frame(),
            final(self)@.wf(),
    {
        self.input.reset();
        self.active_window = None;
        let mut i: usize = 0;
        while i < self.windows.len()
            invariant
                i <= self.windows.len(),
                self.windows.len() == old(self).windows.len(),
                forall|j: int| 0 <= j < i ==> self@.windows[j] == old(self)@.windows[j].next_frame(),
                forall|j: int|
                    i <= j < self.windows.len() ==> self@.windows[j] == old(self)@.windows[j],
                self.input@ == old(self).input@.reset(),
                self.style == old(self).style,
                self.metrics == old(self).metrics,
                self.storage_u32@ == old(self).storage_u32@,
                self.active_window is None,
            decreases self.windows.len() - i,
        {
            let ghost before = self@.windows;
            self.windows[i].new_frame();
            assert(self@.windows =~= before.update(i as int, before[i as int].next_frame()));
            i += 1;
        }
        assert(self@.windows =~= old(self)@.next_frame().windows);
    }

    /// The pointer's button went down at `position`. The topmost window
    /// under the pointer that is on screen and enabled comes to the top of the
    /// stack, and with that gets the focus; where the press is in the title bar
    /// of a movable window, the pointer takes hold of the window.
    pub fn mouse_down(&mut self, position: Vec2)
        requires
            old(self)@.wf(),
        ensures
            final(self)@ == old(self)@.mouse_down(position),
            final(self)@.wf(),
    {
        self.input.is_mouse_down = true;
        self.input.click_down = true;
        self.input.mouse_position = position;
        let mut i: usize = self.windows.len();
        assert(self@.windows.take(i as int) =~= self@.windows);
        while i > 0
            invariant
                old(self)@.wf(),
                i <= self.windows.len(),
                self@ == old(self)@.with_input(old(self)@.mouse_down(position).input),
                top_hit(self@.windows, position) == top_hit(
                    self@.windows.take(i as int),
                    position,
                ),
            decreases i,
        {
            i -= 1;
            assert(self@.windows.take(i + 1).drop_last() =~= self@.windows.take(i as int));
            if self.windows[i].accepts(position) {
                let ghost before = self@;
                if self.windows[i].movable && self.windows[i].title_rect().contains(position) {
                    let hold = position.saturating_sub(self.windows[i].position);
                    self.windows[i].grabbed_at = Some(hold);
                }
                assert(self@.windows =~= before.windows.update(
                    i as int,
                    before.windows[i as int].pressed_at(position),
                ));
                self.raise(i);
                proof {
                    lemma_mouse_down_wf(old(self)@, position);
                }
                return ;
            }
        }
        proof {
            lemma_mouse_down_wf(old(self)@, position);
        }
    }

    /// The pointer's button went up at `position`. A window that was held
    /// is let go.
    pub fn mouse_up(&mut self, position: Vec2)
        requires
            old(self)@.wf(),
        ensures
            final(self)@ == old(self)@.mouse_up(position),
            final(self)@.wf(),
    {
        self.input.is_mouse_down = false;
        self.input.click_up = true;
        self.input.mouse_position = position;
        let mut i: usize = 0;
        while i < self.windows.len()
            invariant
                i <= self.windows.len(),
                self.windows.len() == old(self).windows.len(),
                forall|j: int| 0 <= j < i ==> self@.windows[j] == old(self)@.windows[j].released(),
                forall|j: int|
                    i <= j < self.windows.len() ==> self@.windows[j] == old(self)@.windows[j],
                self.input@ == old(self)@.mouse_up(position).input,
                self.style == old(self).style,
                self.metrics == old(self).metrics,
                self.storage_u32@ == old(self).storage_u32@,
                self.active_window == old(self).active_window,
            decreases self.windows.len() - i,
        {
            let ghost before = self@.windows;
            self.windows[i].grabbed_at = None;
            assert(self@.windows =~= before.update(i as int, before[i as int].released()));
            i += 1;
        }
        assert(self@.windows =~= old(self)@.mouse_up(position).windows);
        proof {
            lemma_same_ids_wf(old(self)@, self@);
        }
    }

    /// The pointer moved to `position`. A window that is held follows it.
    pub fn mouse_move(&mut self, position: Vec2)
        requires
            old(self)@.wf(),
        ensures
            final(self)@ == old(self)@.mouse_move(position),
            final(self)@.wf(),
    {
        self.input.mouse_position = position;
        let mut i: usize = 0;
        while i < self.windows.len()
            invariant
                i <= self.windows.len(),
                self.windows.len() == old(self).windows.len(),
                forall|j: int|
                    0 <= j < i ==> self@.windows[j] == old(self)@.windows[j].dragged_to(position),
                forall|j: int|
                    i <= j < self.windows.len() ==> self@.windows[j] == old(self)@.windows[j],
                self.input@ == old(self)@.mouse_move(position).input,
                self.style == old(self).style,
                self.metrics == old(self).metrics,
                self.storage_u32@ == old(self).storage_u32@,
                self.active_window == old(self).active_window,
            decreases self.windows.len() - i,
        {
            let ghost before = self@.windows;
            match self.windows[i].grabbed_at {
                Some(hold) => {
                    self.windows[i].set_position(position.saturating_sub(hold));
                },
                None => {},
            }
            assert(self@.windows =~= before.update(i as int, before[i as int].dragged_to(position)));
            i += 1;
        }
        assert(self@.windows =~= old(self)@.mouse_move(position).windows);
        proof {
            lemma_same_ids_wf(old(self)@, self@);
        }
    }

    /// The wheel turned by `delta` in this frame.
    pub fn mouse_wheel(&mut self, delta: Vec2)
        ensures
            final(self)@ == old(self)@.with_input(
                InputView { mouse_wheel: delta, ..old(self)@.input },
            ),
    {
        self.input.mouse_wheel = delta;
    }

    /// A character was typed.
    pub fn char_event(&mut self, character: char, shift: bool, ctrl: bool)
        ensures
            final(self)@ == old(self)@.key_event(
                InputCharacter {
                    key: Key::Char(character),
                    modifier_shift: shift,
                    modifier_ctrl: ctrl,
                },
            ),
    {
        self.input.input_buffer.push(
            InputCharacter { key: Key::Char(character), modifier_shift: shift, modifier_ctrl: ctrl },
        );
    }

    /// A key that is not a character went down.
    pub fn key_down(&mut self, key: KeyCode, shift: bool, ctrl: bool)
        ensures
            final(self)@ == old(self)@.key_event(
                InputCharacter {
                    key: Key::KeyCode(key),
                    modifier_shift: shift,
                    modifier_ctrl: ctrl,
                },
            ),
    {
        self.input.input_buffer.push(
            InputCharacter { key: Key::KeyCode(key), modifier_shift: shift, modifier_ctrl: ctrl },
        );
    }

    /// Something else takes or gives back the pointer. While it is grabbed,
    /// widgets see no button.
    pub fn set_cursor_grabbed(&mut self, grabbed: bool)
        ensures
            final(self)@ == old(self)@.with_input(
                InputView { cursor_grabbed: grabbed, ..old(self)@.input },
            ),
    {
        self.input.cursor_grabbed = grabbed;
    }

    /// A modal surface is up, or no longer. While one is, widgets see no
    /// button. The flag lasts until the frame ends.
    pub fn set_modal_active(&mut self, active: bool)
        ensures
            final(self)@ == old(self)@.with_input(
                InputView { modal_active: active, ..old(self)@.input },
            ),
    {
        self.input.modal_active = active;
    }

    /// Moves the window at `i` to the top of the stack.
    fn raise(&mut self, i: usize)
        requires
            i < old(self).windows.len(),
        ensures
            final(self)@ == (UiView { windows: raised(old(self)@.windows, i as int), ..old(self)@ }),
    {
        let window = self.windows.remove(i);
        self.windows.push(window);
        assert(self@.windows =~= raised(old(self)@.windows, i as int));
    }

    /// Brings the window `id` to the top of the stack, where it has the
    /// focus. A window that is unknown or not enabled is left where it is.
    pub fn focus_window(&mut self, id: Id)
        requires
            old(self)@.wf(),
        ensures
            final(self)@ == old(self)@.focus_window(id),
            final(self)@.wf(),
    {
        match self.find(id) {
            Some(i) => {
                if self.windows[i].enabled {
                    self.raise(i);
                    proof {
                        lemma_raised_wf(old(self)@, i as int);
                    }
                }
            },
            None => {},
        }
    }

    /// Begins the declaration of the window `id`, which is made where the
    /// context does not know it. Returns whether the window was declared in
    /// the frame before.
    pub(crate) fn begin_window(
        &mut self,
        id: Id,
        position: Vec2,
        size: Vec2,
        title_height: i32,
        movable: bool,
        enabled: bool,
    ) -> (was_active: bool)
        requires
            old(self)@.wf(),
        ensures
            final(self)@ == old(self)@.begin_window(
                id,
                position,
                size,
                title_height,
                movable,
                enabled,
            ),
            final(self)@.wf(),
            final(self)@.active_window == Some(id),
            was_active == final(self)@.active().was_active,
    {
        let found = self.find(id);
        let i: usize = match found {
            Some(i) => i,
            None => {
                let window = WindowState::new(
                    id,
                    position,
                    size,
                    title_height,
                    self.style.margin,
                    movable,
                    enabled,
                    self.metrics,
                );
                self.windows.insert(0, window);
                0
            },
        };
        let ghost before = self@;
        let kept = self.windows[i].position;
        self.windows[i].size = size;
        self.windows[i].title_height = title_height;
        self.windows[i].movable = movable;
        self.windows[i].enabled = enabled;
        self.windows[i].want_close = false;
        self.windows[i].active = true;
        self.windows[i].set_position(if movable { kept } else { position });
        self.active_window = Some(id);
        assert(self@.windows =~= before.windows.update(
            i as int,
            before.windows[i as int].declared(position, size, title_height, movable, enabled),
        ));
        proof {
            lemma_begin_window_wf(old(self)@, id, position, size, title_height, movable, enabled);
            assert(self@.windows =~= old(self)@.begin_window(
                id,
                position,
                size,
                title_height,
                movable,
                enabled,
            ).windows);
        }
        self.windows[i].was_active
    }

    /// Ends the declaration of the window.
    pub(crate) fn end_window(&mut self)
        ensures
            final(self)@ == old(self)@.end_window(),
            old(self)@.wf() ==> final(self)@.wf(),
    {
        self.active_window = None;
    }

    /// Asks for the window that is being declared to be closed: its `end`
    /// will answer that it does not stay open.
    pub fn close_current_window(&mut self)
        requires
            old(self)@.wf(),
            old(self)@.active_window is Some,
        ensures
            final(self)@ == old(self)@.with_active(
                WindowView { want_close: true, ..old(self)@.active() },
            ),
            final(self)@.wf(),
    {
        let context = self.get_active_window_context();
        proof {
            lemma_with_active(old(self)@, WindowView { want_close: true, ..old(self)@.active() });
        }
        context.window.close();
    }

    /// What a widget call needs of the context. What the caller leaves in
    /// the window and in the storage is what the context holds afterwards.
    pub(crate) fn get_active_window_context(&mut self) -> (context: WindowContext<'_>)
        requires
            old(self)@.wf(),
            old(self)@.active_window is Some,
        ensures
            context.window@ == old(self)@.active(),
            context.storage_u32@ == old(self)@.storage,
            *context.global_style == old(self)@.style,
            context.input@ == old(self)@.input,
            context.focused == old(self)@.focused(),
            final(self)@ == old(self)@.with_active(final(context.window)@).with_storage(
                final(context.storage_u32)@,
            ),
    {
        let id: Id = self.active_window.unwrap();
        let focused = self.is_focused(id);
        let i: usize = self.find(id).unwrap();
        assert forall|w: WindowState| #[trigger]
            views_of(self.windows@.update(i as int, w)) == views_of(self.windows@).update(
                i as int,
                w@,
            ) by {
            assert(views_of(self.windows@.update(i as int, w)) =~= views_of(self.windows@).update(
                i as int,
                w@,
            ));
        }
        WindowContext {
            window: &mut self.windows[i],
            storage_u32: &mut self.storage_u32,
            global_style: &self.style,
            input: &self.input,
            focused,
        }
    }
}

} // verus!
