//! A line that folds and unfolds what is declared under it.

use crate::draw_command::{Alignment, DrawOp};
use crate::style::Style;
use crate::types::{Id, Rect, Vec2};
use crate::ui::cursor::Layout;
use crate::ui::input::{Input, InputView};
use crate::ui::storage::{stored_or, Storage};
use crate::ui::window_state::{WindowState, WindowView};
use crate::ui::model::{lemma_with_active, UiView};
use crate::ui::Ui;
use vstd::prelude::*;

verus! {

/// A tree node to be declared.
pub struct TreeNode<'a> {
    /// Under this identifier the node keeps whether it is unfolded.
    pub id: Id,
    pub label: &'a str,
    /// Whether the node is unfolded when it is first declared.
    pub init_unfolded: bool,
}

/// The extent of a node's line.
pub open spec fn line_size() -> Vec2 {
    Vec2 { x: 300, y: 14 }
}

/// By how much the content of an unfolded node is indented.
pub open spec fn indentation() -> int {
    5
}

impl<'a> TreeNode<'a> {
    /// The rectangle of the node's line in `window`.
    pub open spec fn rect(self, window: WindowView) -> Rect {
        Rect { position: window.cursor.placed(line_size(), Layout::Vertical), size: line_size() }
    }

    /// Whether the line is pressed: the window has the focus, the pointer
    /// is over the line, and the pointer's button went down in this frame.
    pub open spec fn pressed(self, window: WindowView, input: InputView, focused: bool) -> bool {
        focused && self.rect(window).spec_contains(input.mouse_position) && input.click_down()
    }

    /// What the node's slot holds after the call: a press flips the lowest
    /// bit of what it held, which is the initial state where it held nothing.
    pub open spec fn state_after(self, storage: Map<Id, u32>, pressed: bool) -> u32 {
        let stored = stored_or(
            storage,
            self.id,
            if self.init_unfolded {
                1u32
            } else {
                0u32
            },
        );
        if pressed {
            stored ^ 1
        } else {
            stored
        }
    }

    /// Whether the node is unfolded after the call.
    pub open spec fn unfolded(
        self,
        window: WindowView,
        storage: Map<Id, u32>,
        input: InputView,
        focused: bool,
    ) -> bool {
        self.state_after(storage, self.pressed(window, input, focused)) == 1
    }

    /// The window after the node's line was declared in it. Under an
    /// unfolded node the flow is indented.
    pub open spec fn begun_in(
        self,
        window: WindowView,
        storage: Map<Id, u32>,
        input: InputView,
        style: Style,
        focused: bool,
    ) -> WindowView {
        let position = self.rect(window).position;
        let state = self.state_after(storage, self.pressed(window, input, focused));
        let placed = window.cursor.advanced(line_size(), Layout::Vertical);
        WindowView {
            cursor: if state == 1 {
                placed.indented(indentation())
            } else {
                placed
            },
            draw_commands: window.draw_commands.push(
                DrawOp::Label {
                    label: if state == 0 {
                        "+"@
                    } else {
                        "-"@
                    },
                    position,
                    color: Some(style.spec_text(focused)),
                    alignment: Alignment::Left,
                },
            ).push(
                DrawOp::Label {
                    label: self.label@,
                    position: position.plus(Vec2 { x: 10, y: 0 }),
                    color: Some(style.spec_text(focused)),
                    alignment: Alignment::Left,
                },
            ),
            ..window
        }
    }

    /// The context after `begin`.
    pub open spec fn begun(self, ui: UiView) -> UiView {
        ui.with_active(
            self.begun_in(ui.active(), ui.storage, ui.input, ui.style, ui.focused()),
        ).with_storage(
            ui.storage.insert(
                self.id,
                self.state_after(ui.storage, self.pressed(ui.active(), ui.input, ui.focused())),
            ),
        )
    }

    /// A node that starts folded.
    pub fn new(id: Id, label: &'a str) -> (node: TreeNode<'a>)
        ensures
            node == (TreeNode { id, label, init_unfolded: false }),
    {
        TreeNode { id, label, init_unfolded: false }
    }

    /// The node starts unfolded.
    pub fn init_unfolded(self) -> (node: TreeNode<'a>)
        ensures
            node == (TreeNode { init_unfolded: true, ..self }),
    {
        let mut node = self;
        node.init_unfolded = true;
        node
    }

    /// Declares the node and, where it is unfolded, its content: `f` runs
    /// if and only if the node is unfolded, between `begin` and the token's
    /// `end`. Returns whether an unfolded node's line was pressed in this
    /// frame; a folded node answers `false`.
    pub fn ui<F: FnOnce(&mut Ui)>(self, ui: &mut Ui, f: F) -> (clicked: bool)
        requires
            old(ui)@.wf(),
            old(ui)@.active_window is Some,
            forall|u: &mut Ui|
                u@.wf() && u@.active_window == old(ui)@.active_window ==> call_requires(f, (u,)),
            forall|u: &mut Ui|
                u@.wf() && u@.active_window == old(ui)@.active_window && call_ensures(f, (u,), ())
                    ==> final(u)@.wf() && final(u)@.active_window == u@.active_window,
        ensures
            final(ui)@.wf(),
            final(ui)@.active_window == old(ui)@.active_window,
            !self.unfolded(
                old(ui)@.active(),
                old(ui)@.storage,
                old(ui)@.input,
                old(ui)@.focused(),
            ) ==> !clicked && final(ui)@ == self.begun(old(ui)@),
            self.unfolded(old(ui)@.active(), old(ui)@.storage, old(ui)@.input, old(ui)@.focused())
                ==> clicked == self.pressed(old(ui)@.active(), old(ui)@.input, old(ui)@.focused())
                && exists|u: &mut Ui|
                    u@ == self.begun(old(ui)@) && #[trigger] call_ensures(f, (u,), ())
                        && final(ui)@ == TreeNodeToken::ended(final(u)@),
    {
        match self.begin(ui) {
            Some(token) => {
                f(ui);
                token.end(ui)
            },
            None => false,
        }
    }

    /// Declares the node's line in the window that is being declared. An
    /// unfolded node answers with a token, and what is declared before the
    /// token's `end` is the node's content. A folded node answers `None`, and
    /// its content is not to be declared.
    pub fn begin(self, ui: &mut Ui) -> (token: Option<TreeNodeToken>)
        requires
            old(ui)@.wf(),
            old(ui)@.active_window is Some,
        ensures
            final(ui)@ == self.begun(old(ui)@),
            final(ui)@.wf(),
            final(ui)@.active_window == old(ui)@.active_window,
            final(ui)@.input == old(ui)@.input,
            token is Some == self.unfolded(
                old(ui)@.active(),
                old(ui)@.storage,
                old(ui)@.input,
                old(ui)@.focused(),
            ),
            token matches Some(t) ==> t.clicked() == self.pressed(
                old(ui)@.active(),
                old(ui)@.input,
                old(ui)@.focused(),
            ),
    {
        let context = ui.get_active_window_context();
        proof {
            lemma_with_active(
                old(ui)@,
                self.begun_in(
                    old(ui)@.active(),
                    old(ui)@.storage,
                    old(ui)@.input,
                    old(ui)@.style,
                    old(ui)@.focused(),
                ),
            );
        }
        self.begin_in(
            context.window,
            context.storage_u32,
            context.input,
            context.global_style,
            context.focused,
        )
    }

    /// The work of `begin` on the parts of the context.
    fn begin_in(
        self,
        window: &mut WindowState,
        storage: &mut Storage,
        input: &Input,
        style: &Style,
        focused: bool,
    ) -> (token: Option<TreeNodeToken>)
        ensures
            final(window)@ == self.begun_in(old(window)@, old(storage)@, input@, *style, focused),
            final(storage)@ == old(storage)@.insert(
                self.id,
                self.state_after(old(storage)@, self.pressed(old(window)@, input@, focused)),
            ),
            token is Some == self.unfolded(old(window)@, old(storage)@, input@, focused),
            token matches Some(t) ==> t.clicked() == self.pressed(old(window)@, input@, focused),
    {
        let size = Vec2::new(300, 14);

        let color = style.text(focused);
        let pos = window.cursor.fit(size, Layout::Vertical);

        let hovered = Rect::new(pos, size).contains(input.mouse_position);

        let clicked = focused && hovered && input.click_down();

        let opened = storage.get_or_insert_default(
            self.id,
            if self.init_unfolded {
                1
            } else {
                0
            },
        );

        if clicked {
            *opened ^= 1;
        }
        let state: u32 = *opened;

        window.draw_commands.draw_label(
            if state == 0 {
                "+"
            } else {
                "-"
            },
            pos,
            Some(color),
            Alignment::Left,
        );
        window.draw_commands.draw_label(
            self.label,
            pos.saturating_add(Vec2::new(10, 0)),
            Some(color),
            Alignment::Left,
        );

        if state == 1 {
            window.cursor.indent(5);

            Some(TreeNodeToken { clicked })
        } else {
            None
        }
    }
}

/// What `begin` hands out for an unfolded node. It is to be given back
/// with `end` when the node's content has been declared.
#[must_use]
pub struct TreeNodeToken {
    clicked: bool,
}

impl TreeNodeToken {
    /// Whether the node's line was pressed in this frame.
    pub closed spec fn clicked(&self) -> bool {
        self.clicked
    }

    /// The context after `end`: the indentation of the node's content is
    /// taken back.
    pub open spec fn ended(ui: UiView) -> UiView {
        ui.with_active(
            WindowView { cursor: ui.active().cursor.indented(-indentation()), ..ui.active() },
        )
    }

    /// Ends the content of the node. Returns whether the node's line was
    /// pressed in this frame.
    pub fn end(self, ui: &mut Ui) -> (clicked: bool)
        requires
            old(ui)@.wf(),
            old(ui)@.active_window is Some,
        ensures
            clicked == self.clicked(),
            final(ui)@ == TreeNodeToken::ended(old(ui)@),
            final(ui)@.wf(),
            final(ui)@.active_window == old(ui)@.active_window,
            final(ui)@.input == old(ui)@.input,
    {
        let context = ui.get_active_window_context();
        context.window.cursor.indent(-5);
        proof {
            lemma_with_active(
                old(ui)@,
                WindowView {
                    cursor: old(ui)@.active().cursor.indented(-indentation()),
                    ..old(ui)@.active()
                },
            );
            assert(context.window@ =~= WindowView {
                cursor: old(ui)@.active().cursor.indented(-indentation()),
                ..old(ui)@.active()
            });
        }

        self.clicked
    }
}

impl Ui {
    /// Declares a tree node that starts folded, and its content. See
    /// [`TreeNode::ui`].
    pub fn tree_node<F: FnOnce(&mut Ui)>(&mut self, id: Id, label: &str, f: F) -> (clicked: bool)
        requires
            old(self)@.wf(),
            old(self)@.active_window is Some,
            forall|u: &mut Ui|
                u@.wf() && u@.active_window == old(self)@.active_window ==> call_requires(f, (u,)),
            forall|u: &mut Ui|
                u@.wf() && u@.active_window == old(self)@.active_window && call_ensures(
                    f,
                    (u,),
                    (),
                ) ==> final(u)@.wf() && final(u)@.active_window == u@.active_window,
        ensures
            final(self)@.wf(),
            final(self)@.active_window == old(self)@.active_window,
            !(TreeNode { id, label, init_unfolded: false }).unfolded(
                old(self)@.active(),
                old(self)@.storage,
                old(self)@.input,
                old(self)@.focused(),
            ) ==> !clicked && final(self)@ == (TreeNode { id, label, init_unfolded: false }).begun(
                old(self)@,
            ),
            (TreeNode { id, label, init_unfolded: false }).unfolded(
                old(self)@.active(),
                old(self)@.storage,
                old(self)@.input,
                old(self)@.focused(),
            ) ==> clicked == (TreeNode { id, label, init_unfolded: false }).pressed(
                old(self)@.active(),
                old(self)@.input,
                old(self)@.focused(),
            ) && exists|u: &mut Ui|
                u@ == (TreeNode { id, label, init_unfolded: false }).begun(old(self)@)
                    && #[trigger] call_ensures(f, (u,), ()) && final(self)@ == TreeNodeToken::ended(
                    final(u)@,
                ),
    {
        TreeNode::new(id, label).ui(self, f)
    }
}

/// A press unfolds a folded node and folds an unfolded one: of a node that
/// starts folded, the first press makes the state one, the second makes it
/// zero again, and so on. Without a press the state is what it was.
pub proof fn lemma_press_toggles(node: TreeNode, storage: Map<Id, u32>)
    requires
        !node.init_unfolded,
    ensures
        !storage.contains_key(node.id) ==> node.state_after(storage, true) == 1,
        node.state_after(storage.insert(node.id, 0), true) == 1,
        node.state_after(storage.insert(node.id, 1), true) == 0,
        node.state_after(storage.insert(node.id, node.state_after(storage, true)), true)
            == node.state_after(storage, false),
        node.state_after(storage.insert(node.id, node.state_after(storage, false)), false)
            == node.state_after(storage, false),
        !storage.contains_key(node.id) ==> node.state_after(storage, false) == 0,
{
    assert(0u32 ^ 1 == 1) by (bit_vector);
    assert(1u32 ^ 1 == 0) by (bit_vector);
    let stored = stored_or(storage, node.id, 0u32);
    assert((stored ^ 1) ^ 1 == stored) by (bit_vector);
}

} // verus!
