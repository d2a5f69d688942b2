//! A row of tabs of equal width, one of which is selected.

use crate::draw_command::{Alignment, CommandsView, DrawOp};
use crate::style::Style;
use crate::types::{div_floor, saturate, saturated, Color, Id, Rect, Vec2};
use crate::ui::cursor::Layout;
use crate::ui::input::{Input, InputView};
use crate::ui::storage::{stored_or, Storage};
use crate::ui::window_state::{WindowState, WindowView};
use crate::ui::model::lemma_with_active;
use crate::ui::Ui;
use vstd::prelude::*;

verus! {

/// A tab bar to be declared.
pub struct Tabbar {
    /// Under this identifier the selection is kept.
    pub id: Id,
    pub position: Vec2,
    pub size: Vec2,
    pub tabs: &'static [&'static str],
}

impl Tabbar {
    /// The width of one tab: the bar's width divided evenly, rounded down.
    pub open spec fn tab_width(self) -> int {
        if self.tabs@.len() == 0 {
            0
        } else {
            self.size.x as int / self.tabs@.len() as int
        }
    }

    /// The rectangle of the tab `n`. One unit is left free on either side.
    pub open spec fn tab_rect(self, n: int) -> Rect {
        Rect {
            position: Vec2 {
                x: saturated(self.position.x + self.tab_width() * n + 1) as i32,
                y: self.position.y,
            },
            size: Vec2 { x: saturated(self.tab_width() - 2) as i32, y: self.size.y },
        }
    }

    /// Where the label of the tab `n` is centered.
    pub open spec fn label_position(self, n: int, style: Style) -> Vec2 {
        Vec2 {
            x: saturated(self.position.x + self.tab_width() * n + self.tab_width() / 2) as i32,
            y: saturated(self.position.y + style.margin_button + 2) as i32,
        }
    }

    /// The last of the tabs below `upto` under the point `p`, if there is one.
    pub open spec fn tab_under(self, p: Vec2, upto: int) -> Option<int>
        decreases upto,
    {
        if upto <= 0 {
            None
        } else if self.tab_rect(upto - 1).spec_contains(p) {
            Some(upto - 1)
        } else {
            self.tab_under(p, upto - 1)
        }
    }

    /// The tab that this frame's press selects, if it selects one: a press
    /// counts in the focused window only.
    pub open spec fn pressed_tab(self, input: InputView, focused: bool, upto: int) -> Option<int> {
        if focused && input.click_down() {
            self.tab_under(input.mouse_position, upto)
        } else {
            None
        }
    }

    /// The selection after the call: the tab that was pressed, or else what
    /// was selected before, which is the first tab where nothing was.
    pub open spec fn selection(self, storage: Map<Id, u32>, input: InputView, focused: bool) -> u32 {
        match self.pressed_tab(input, focused, self.tabs@.len() as int) {
            Some(n) => n as u32,
            None => stored_or(storage, self.id, 0),
        }
    }

    /// The two draw commands of the tab `n`: its background and its label.
    /// `selected` is the selection before the call.
    pub open spec fn tab_ops(
        self,
        n: int,
        selected: u32,
        input: InputView,
        style: Style,
        focused: bool,
    ) -> Seq<DrawOp> {
        let hovered = self.tab_rect(n).spec_contains(input.mouse_position);
        seq![
            DrawOp::Rect {
                rect: self.tab_rect(n),
                stroke: None,
                fill: style.spec_tabbar_background(
                    focused,
                    n == selected,
                    hovered,
                    hovered && input.is_mouse_down(),
                ),
            },
            DrawOp::Label {
                label: self.tabs@[n]@,
                position: self.label_position(n, style),
                color: Some(
                    if n == selected {
                        Color { r: 255, g: 255, b: 255, a: 255 }
                    } else {
                        style.spec_text(focused)
                    },
                ),
                alignment: Alignment::Center,
            },
        ]
    }

    /// The draw commands of the tabs below `upto`, first tab first.
    pub open spec fn ops(
        self,
        upto: int,
        selected: u32,
        input: InputView,
        style: Style,
        focused: bool,
    ) -> Seq<DrawOp>
        decreases upto,
    {
        if upto <= 0 {
            Seq::empty()
        } else {
            self.ops(upto - 1, selected, input, style, focused) + self.tab_ops(
                upto - 1,
                selected,
                input,
                style,
                focused,
            )
        }
    }

    /// The window after the bar was declared in it. The bar is placed
    /// freely, so the flow stays as it is.
    pub open spec fn declared_in(
        self,
        window: WindowView,
        storage: Map<Id, u32>,
        input: InputView,
        style: Style,
        focused: bool,
    ) -> WindowView {
        WindowView {
            draw_commands: CommandsView {
                commands: window.draw_commands.commands + self.ops(
                    self.tabs@.len() as int,
                    stored_or(storage, self.id, 0),
                    input,
                    style,
                    focused,
                ),
                ..window.draw_commands
            },
            ..window
        }
    }

    /// A bar of these tabs at `position`, `size` in all.
    pub fn new(
        id: Id,
        position: Vec2,
        size: Vec2,
        tabs: &'static [&'static str],
    ) -> (tabbar: Tabbar)
        ensures
            tabbar == (Tabbar { id, position, size, tabs }),
    {
        Tabbar { id, position, size, tabs }
    }

    /// Declares the bar in the window that is being declared and returns
    /// the selected tab. A press on a tab in the focused window selects it at
    /// once; without one the selection is what it was.
    pub fn ui(self, ui: &mut Ui) -> (selected: u32)
        requires
            old(ui)@.wf(),
            old(ui)@.active_window is Some,
            self.tabs@.len() <= u32::MAX,
        ensures
            selected == self.selection(old(ui)@.storage, old(ui)@.input, old(ui)@.focused()),
            final(ui)@ == old(ui)@.with_active(
                self.declared_in(
                    old(ui)@.active(),
                    old(ui)@.storage,
                    old(ui)@.input,
                    old(ui)@.style,
                    old(ui)@.focused(),
                ),
            ).with_storage(old(ui)@.storage.insert(self.id, selected)),
            final(ui)@.wf(),
            final(ui)@.input == old(ui)@.input,
    {
        let context = ui.get_active_window_context();
        proof {
            lemma_with_active(
                old(ui)@,
                self.declared_in(
                    old(ui)@.active(),
                    old(ui)@.storage,
                    old(ui)@.input,
                    old(ui)@.style,
                    old(ui)@.focused(),
                ),
            );
        }
        self.declare_in(
            context.window,
            context.storage_u32,
            context.input,
            context.global_style,
            context.focused,
        )
    }

    /// The work of `ui` on the parts of the context.
    fn declare_in(
        self,
        window: &mut WindowState,
        storage: &mut Storage,
        input: &Input,
        style: &Style,
        focused: bool,
    ) -> (selected: u32)
        requires
            self.tabs@.len() <= u32::MAX,
        ensures
            selected == self.selection(old(storage)@, input@, focused),
            final(window)@ == self.declared_in(old(window)@, old(storage)@, input@, *style, focused),
            final(storage)@ == old(storage)@.insert(self.id, selected),
    {
        let pos = window.cursor.fit(self.size, Layout::Free(self.position));

        let count: usize = self.tabs.len();
        let width: i32 = if count == 0 {
            0
        } else {
            div_floor(self.size.x, count as i64)
        };
        let half: i32 = div_floor(width, 2);
        let tab_w: i32 = saturate(width as i128 - 2);
        let selected: u32 = *storage.get_or_insert_default(self.id, 0);
        let label_y: i32 = saturate(pos.y as i128 + style.margin_button as i128 + 2);

        let mut n: usize = 0;
        while n < count
            invariant
                n <= count,
                count == self.tabs@.len(),
                count <= u32::MAX,
                pos == self.position,
                width == self.tab_width(),
                half == width as int / 2,
                tab_w == saturated(width - 2),
                label_y == saturated(self.position.y + style.margin_button + 2),
                window@ == (WindowView {
                    draw_commands: CommandsView {
                        commands: old(window)@.draw_commands.commands + self.ops(
                            n as int,
                            selected,
                            input@,
                            *style,
                            focused,
                        ),
                        ..old(window)@.draw_commands
                    },
                    ..old(window)@
                }),
                storage@ == old(storage)@.insert(
                    self.id,
                    match self.pressed_tab(input@, focused, n as int) {
                        Some(k) => k as u32,
                        None => selected,
                    },
                ),
            decreases count - n,
        {
            assert(-0x8000_0000 * 0x1_0000_0000 <= width * n <= 0x8000_0000 * 0x1_0000_0000)
                by (nonlinear_arith)
                requires
                    -0x8000_0000 <= width <= 0x8000_0000,
                    0 <= n <= 0x1_0000_0000,
            ;
            let left: i128 = pos.x as i128 + width as i128 * n as i128;
            let rect = Rect::new(Vec2::new(saturate(left + 1), pos.y), Vec2::new(tab_w, self.size.y));
            let hovered = rect.contains(input.mouse_position);
            let is_selected = n as u32 == selected;

            if focused && hovered && input.click_down() {
                *storage.get_or_insert_default(self.id, 0) = n as u32;
            }
            window.draw_commands.draw_rect(
                rect,
                None,
                style.tabbar_background(
                    focused,
                    is_selected,
                    hovered,
                    hovered && input.is_mouse_down(),
                ),
            );
            window.draw_commands.draw_label(
                self.tabs[n],
                Vec2::new(saturate(left + half as i128), label_y),
                Some(
                    if is_selected {
                        Color::new(255, 255, 255, 255)
                    } else {
                        style.text(focused)
                    },
                ),
                Alignment::Center,
            );
            proof {
                assert(rect == self.tab_rect(n as int));
                assert(window@.draw_commands.commands =~= old(window)@.draw_commands.commands + (
                self.ops(n as int, selected, input@, *style, focused) + self.tab_ops(
                    n as int,
                    selected,
                    input@,
                    *style,
                    focused,
                )));
                assert(storage@ =~= old(storage)@.insert(
                    self.id,
                    match self.pressed_tab(input@, focused, n + 1) {
                        Some(k) => k as u32,
                        None => selected,
                    },
                ));
            }
            n += 1;
        }
        let chosen = *storage.get_or_insert_default(self.id, 0);
        assert(storage@ =~= old(storage)@.insert(self.id, chosen));
        chosen
    }
}

impl Ui {
    /// Declares a tab bar. See [`Tabbar::ui`].
    pub fn tabbar(
        &mut self,
        id: Id,
        position: Vec2,
        size: Vec2,
        tabs: &'static [&'static str],
    ) -> (selected: u32)
        requires
            old(self)@.wf(),
            old(self)@.active_window is Some,
            tabs@.len() <= u32::MAX,
        ensures
            selected == (Tabbar { id, position, size, tabs }).selection(
                old(self)@.storage,
                old(self)@.input,
                old(self)@.focused(),
            ),
            final(self)@ == old(self)@.with_active(
                (Tabbar { id, position, size, tabs }).declared_in(
                    old(self)@.active(),
                    old(self)@.storage,
                    old(self)@.input,
                    old(self)@.style,
                    old(self)@.focused(),
                ),
            ).with_storage(old(self)@.storage.insert(id, selected)),
            final(self)@.wf(),
            final(self)@.input == old(self)@.input,
    {
        Tabbar::new(id, position, size, tabs).ui(self)
    }
}

/// What `tab_under` finds: the last tab below `upto` under the point.
pub proof fn lemma_tab_under(tabbar: Tabbar, p: Vec2, upto: int)
    ensures
        match tabbar.tab_under(p, upto) {
            Some(k) => 0 <= k < upto && tabbar.tab_rect(k).spec_contains(p) && forall|j: int|
                k < j < upto ==> !tabbar.tab_rect(j).spec_contains(p),
            None => forall|j: int| 0 <= j < upto ==> !tabbar.tab_rect(j).spec_contains(p),
        },
    decreases upto,
{
    if upto > 0 && !tabbar.tab_rect(upto - 1).spec_contains(p) {
        lemma_tab_under(tabbar, p, upto - 1);
    }
}

/// A press inside the tab `k` in the focused window selects it, provided
/// no later tab lies under the pointer too. The selection is returned at
/// once, and it is what every later call returns until another press.
pub proof fn lemma_press_selects_tab(
    tabbar: Tabbar,
    storage: Map<Id, u32>,
    input: InputView,
    k: int,
    later: InputView,
    later_focused: bool,
)
    requires
        0 <= k < tabbar.tabs@.len() <= u32::MAX,
        input.click_down(),
        tabbar.tab_rect(k).spec_contains(input.mouse_position),
        forall|j: int|
            k < j < tabbar.tabs@.len() ==> !tabbar.tab_rect(j).spec_contains(input.mouse_position),
        !(later_focused && later.click_down()),
    ensures
        tabbar.selection(storage, input, true) == k,
        tabbar.selection(
            storage.insert(tabbar.id, tabbar.selection(storage, input, true)),
            later,
            later_focused,
        ) == k,
{
    lemma_tab_under(tabbar, input.mouse_position, tabbar.tabs@.len() as int);
}

/// Without a press in the focused window the selection is what is stored,
/// the first tab where nothing is, and it stays so from frame to frame.
pub proof fn lemma_selection_is_stable(
    tabbar: Tabbar,
    storage: Map<Id, u32>,
    input: InputView,
    focused: bool,
    later: InputView,
    later_focused: bool,
)
    requires
        !(focused && input.click_down()),
        !(later_focused && later.click_down()),
    ensures
        tabbar.selection(storage, input, focused) == stored_or(storage, tabbar.id, 0),
        tabbar.selection(
            storage.insert(tabbar.id, tabbar.selection(storage, input, focused)),
            later,
            later_focused,
        ) == tabbar.selection(storage, input, focused),
{
}

/// Where no coordinate of the bar is clamped, no point lies in two tabs.
pub proof fn lemma_tabs_are_disjoint(tabbar: Tabbar, p: Vec2, j: int, k: int)
    requires
        0 <= j < k < tabbar.tabs@.len(),
        i32::MIN <= tabbar.position.x + 1,
        tabbar.position.x + tabbar.size.x + 1 <= i32::MAX,
        tabbar.tab_rect(j).spec_contains(p),
    ensures
        !tabbar.tab_rect(k).spec_contains(p),
{
    let n = tabbar.tabs@.len() as int;
    let w = tabbar.tab_width();
    let x = tabbar.size.x as int;
    assert(w == x / n);
    assert(w * n <= x && w >= 3 && w * j + w <= w * k && w * k + w <= w * n) by (nonlinear_arith)
        requires
            w == x / n,
            n > 0,
            0 <= j < k < n,
            saturated(w - 2) > 0,
    ;
}

} // verus!
