//! Draw commands: what a frame hands to the renderer.
//!
//! The toolkit never draws. Each window owns a list to which its widgets
//! append commands in the order in which they were declared.

use crate::types::{saturate, saturated, Color, Rect, Vec2};
use vstd::prelude::*;
use vstd::string::StrSliceExecFns;

verus! {

/// Where a label stands relative to its position.
#[derive(Clone, Copy, Debug, PartialEq, Eq, Structural)]
pub enum Alignment {
    /// The position is the label's top-left corner.
    Left,
    /// The position is the middle of the label's top edge.
    Center,
}

/// One instruction for the renderer.
#[allow(inconsistent_fields)]
#[derive(Clone, Debug, PartialEq, Eq)]
pub enum DrawCommand {
    DrawRect { rect: Rect, stroke: Option<Color>, fill: Color },
    DrawLabel { label: String, position: Vec2, color: Option<Color>, alignment: Alignment },
    DrawLine { start: Vec2, end: Vec2, color: Color },
    DrawRawTexture { rect: Rect, texture: u32 },
    Clip { rect: Option<Rect> },
}

/// A draw command as a mathematical value.
#[allow(inconsistent_fields)]
pub ghost enum DrawOp {
    Rect { rect: Rect, stroke: Option<Color>, fill: Color },
    Label { label: Seq<char>, position: Vec2, color: Option<Color>, alignment: Alignment },
    Line { start: Vec2, end: Vec2, color: Color },
    RawTexture { rect: Rect, texture: u32 },
    Clip { rect: Option<Rect> },
}

impl View for DrawCommand {
    type V = DrawOp;

    open spec fn view(&self) -> DrawOp {
        match *self {
            DrawCommand::DrawRect { rect, stroke, fill } => DrawOp::Rect { rect, stroke, fill },
            DrawCommand::DrawLabel { label, position, color, alignment } => DrawOp::Label {
                label: label@,
                position,
                color,
                alignment,
            },
            DrawCommand::DrawLine { start, end, color } => DrawOp::Line { start, end, color },
            DrawCommand::DrawRawTexture { rect, texture } => DrawOp::RawTexture { rect, texture },
            DrawCommand::Clip { rect } => DrawOp::Clip { rect },
        }
    }
}

/// Fixed-advance text metrics: every character is `advance` wide and a line
/// is `line_height` high.
#[derive(Clone, Copy, Debug, PartialEq, Eq, Structural)]
pub struct TextMetrics {
    pub advance: i32,
    pub line_height: i32,
}

impl TextMetrics {
    /// The extent of `label` set on one line.
    pub open spec fn measure(&self, label: Seq<char>) -> Vec2 {
        Vec2 { x: saturated(label.len() * self.advance) as i32, y: self.line_height }
    }
}

/// The draw commands of one window, in the order of their arrival.
pub struct CommandsList {
    pub commands: Vec<DrawCommand>,
    /// The clip rectangle that the last clip command set.
    pub clipping_zone: Option<Rect>,
    pub metrics: TextMetrics,
}

/// A commands list as a mathematical value.
#[verifier::ext_equal]
pub ghost struct CommandsView {
    pub commands: Seq<DrawOp>,
    pub clipping_zone: Option<Rect>,
    pub metrics: TextMetrics,
}

impl CommandsView {
    /// The list with `op` appended.
    pub open spec fn push(self, op: DrawOp) -> CommandsView {
        CommandsView { commands: self.commands.push(op), ..self }
    }

    /// The list after a clip command: the command is appended and the
    /// clipping zone follows it.
    pub open spec fn clip(self, rect: Option<Rect>) -> CommandsView {
        CommandsView {
            commands: self.commands.push(DrawOp::Clip { rect }),
            clipping_zone: rect,
            ..self
        }
    }

    /// The empty list of a new frame.
    pub open spec fn cleared(self) -> CommandsView {
        CommandsView { commands: Seq::empty(), clipping_zone: None, ..self }
    }
}

impl View for CommandsList {
    type V = CommandsView;

    open spec fn view(&self) -> CommandsView {
        CommandsView {
            commands: self.commands@.map_values(|c: DrawCommand| c@),
            clipping_zone: self.clipping_zone,
            metrics: self.metrics,
        }
    }
}

impl CommandsList {
    /// An empty list that measures text with `metrics`.
    pub fn new(metrics: TextMetrics) -> (list: CommandsList)
        ensures
            list@ == (CommandsView { commands: Seq::empty(), clipping_zone: None, metrics }),
    {
        CommandsList { commands: Vec::new(), clipping_zone: None, metrics }
    }

    /// Drops the commands of the last frame.
    pub fn clear(&mut self)
        ensures
            final(self)@ == old(self)@.cleared(),
    {
        self.commands = Vec::new();
        self.clipping_zone = None;
    }

    /// The extent that `label` takes when drawn.
    pub fn label_size(&self, label: &str) -> (size: Vec2)
        ensures
            size == self@.metrics.measure(label@),
    {
        let n: usize = label.unicode_len();
        let advance: i32 = self.metrics.advance;
        assert(-0x1_0000_0000_0000_0000 * 0x8000_0000 <= n * advance <= 0x1_0000_0000_0000_0000
            * 0x8000_0000) by (nonlinear_arith)
            requires
                0 <= n <= 0x1_0000_0000_0000_0000,
                -0x8000_0000 <= advance <= 0x8000_0000,
        ;
        Vec2 { x: saturate(n as i128 * advance as i128), y: self.metrics.line_height }
    }

    fn push(&mut self, command: DrawCommand)
        ensures
            final(self)@ == old(self)@.push(command@),
    {
        self.commands.push(command);
        assert(final(self)@.commands =~= old(self)@.commands.push(command@));
    }

    /// A filled rectangle, with a border where `stroke` gives its color.
    pub fn draw_rect(&mut self, rect: Rect, stroke: Option<Color>, fill: Color)
        ensures
            final(self)@ == old(self)@.push(DrawOp::Rect { rect, stroke, fill }),
    {
        self.push(DrawCommand::DrawRect { rect, stroke, fill });
    }

    /// A line of text. Without a color the renderer takes its own.
    pub fn draw_label(
        &mut self,
        label: &str,
        position: Vec2,
        color: Option<Color>,
        alignment: Alignment,
    )
        ensures
            final(self)@ == old(self)@.push(
                DrawOp::Label { label: label@, position, color, alignment },
            ),
    {
        self.push(DrawCommand::DrawLabel { label: label.to_owned(), position, color, alignment });
    }

    /// A line from `start` to `end`.
    pub fn draw_line(&mut self, start: Vec2, end: Vec2, color: Color)
        ensures
            final(self)@ == old(self)@.push(DrawOp::Line { start, end, color }),
    {
        self.push(DrawCommand::DrawLine { start, end, color });
    }

    /// A texture of the renderer, by its handle, stretched over `rect`.
    pub fn draw_raw_texture(&mut self, rect: Rect, texture: u32)
        ensures
            final(self)@ == old(self)@.push(DrawOp::RawTexture { rect, texture }),
    {
        self.push(DrawCommand::DrawRawTexture { rect, texture });
    }

    /// Limits what follows to `rect`, or lifts the limit.
    pub fn clip(&mut self, rect: Option<Rect>)
        ensures
            final(self)@ == old(self)@.clip(rect),
    {
        self.commands.push(DrawCommand::Clip { rect });
        self.clipping_zone = rect;
        assert(final(self)@.commands =~= old(self)@.commands.push(DrawOp::Clip { rect }));
    }
}

} // verus!
