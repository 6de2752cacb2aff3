//! The draw sequence one frame expands to.
//!
//! A refresh is a full-screen clear to the frame's background color followed
//! by the four text lines in a fixed order. There is no partial-update path
//! and no state carried from one refresh to the next: the sequence is a
//! function of the frame alone.

use vstd::prelude::*;

use crate::color::Color;
use crate::frame::DisplayFrame;
use crate::frame::FrameModel;
use crate::frame::TextLine;
use crate::frame::TextLineModel;

verus! {

/// One drawing command handed to the display transport.
#[derive(Debug)]
pub enum DrawOp {
    /// Clear the whole screen to a color.
    Clear(Color),
    /// Draw one text line.
    Text(TextLine),
}

/// The mathematical content of a drawing command.
pub enum DrawOpModel {
    Clear(Color),
    Text(TextLineModel),
}

impl View for DrawOp {
    type V = DrawOpModel;

    open spec fn view(&self) -> DrawOpModel {
        match self {
            DrawOp::Clear(c) => DrawOpModel::Clear(*c),
            DrawOp::Text(l) => DrawOpModel::Text(l@),
        }
    }
}

/// The draw sequence for a frame: clear to the background, then the
/// concentration line, the severity label, the temperature line and the
/// pressure line, in that order.
pub open spec fn render_spec(f: FrameModel) -> Seq<DrawOpModel> {
    seq![
        DrawOpModel::Clear(f.background),
        DrawOpModel::Text(f.co2_line),
        DrawOpModel::Text(f.label_line),
        DrawOpModel::Text(f.temperature_line),
        DrawOpModel::Text(f.pressure_line),
    ]
}

/// The sequence of views of the produced draw commands.
pub open spec fn ops_view(ops: Seq<DrawOp>) -> Seq<DrawOpModel> {
    ops.map_values(|op: DrawOp| op@)
}

/// Copy one text line.
fn clone_line(l: &TextLine) -> (r: TextLine)
    ensures
        r@ == l@,
{
    TextLine { x: l.x, y: l.y, style: l.style, text: l.text.clone() }
}

/// Expand a frame into its draw sequence.
pub fn render_ops(f: &DisplayFrame) -> (ops: Vec<DrawOp>)
    ensures
        ops_view(ops@) == render_spec(f@),
{
    let mut ops: Vec<DrawOp> = Vec::new();
    ops.push(DrawOp::Clear(f.background));
    ops.push(DrawOp::Text(clone_line(&f.co2_line)));
    ops.push(DrawOp::Text(clone_line(&f.label_line)));
    ops.push(DrawOp::Text(clone_line(&f.temperature_line)));
    ops.push(DrawOp::Text(clone_line(&f.pressure_line)));
    proof {
        assert(ops_view(ops@) =~= render_spec(f@));
    }
    ops
}

/// Rendering is repeatable: the draw sequence is a function of the frame
/// alone, so rendering the same frame twice issues the identical sequence
/// of drawing commands, with no hidden state between the calls.
pub proof fn lemma_render_deterministic(f1: FrameModel, f2: FrameModel)
    requires
        f1 == f2,
    ensures
        render_spec(f1) == render_spec(f2),
{
}

} // verus!
