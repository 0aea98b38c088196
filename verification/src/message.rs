//! The drawing commands that a caller sends to a canvas.

use crate::bytes::ByteBuffer;
use crate::geometry::{Point2D, Rect, Size2D, Transform2D};
use crate::scalar::{Double, Single};
use crate::style::{
    CompositionOrBlending, FillOrStrokeStyle, LineCapStyle, LineJoinStyle, TextAlign,
    TextBaseline,
};
use cssparser::RGBA;
use vstd::prelude::*;

verus! {

/// The font that text is drawn in, written as in a style sheet
/// (`"10px sans-serif"`).
#[derive(Clone, Debug, PartialEq)]
pub struct FontStyle {
    pub font: String,
}

/// One drawing command. A command is a value: it holds all that the canvas
/// needs to carry it out and nothing of the canvas itself.
#[derive(Debug, PartialEq)]
pub enum CanvasMessage {
    Arc(Point2D<Single>, Single, Single, Single, bool),
    ArcTo(Point2D<Single>, Point2D<Single>, Single),
    DrawImage(Option<ByteBuffer>, Size2D<Double>, Rect<Double>, Rect<Double>, bool),
    BeginPath,
    BezierCurveTo(Point2D<Single>, Point2D<Single>, Point2D<Single>),
    ClearRect(Rect<Single>),
    Clip,
    ClosePath,
    Ellipse(Point2D<Single>, Single, Single, Single, Single, Single, bool),
    Fill(FillOrStrokeStyle),
    FillText(String, Double, Double, Option<Double>, FillOrStrokeStyle, bool),
    FillRect(Rect<Single>, FillOrStrokeStyle),
    LineTo(Point2D<Single>),
    MoveTo(Point2D<Single>),
    PutImageData(Rect<u64>, ByteBuffer),
    QuadraticCurveTo(Point2D<Single>, Point2D<Single>),
    Rect(Rect<Single>),
    RestoreContext,
    SaveContext,
    StrokeRect(Rect<Single>, FillOrStrokeStyle),
    Stroke(FillOrStrokeStyle),
    SetLineWidth(Single),
    SetLineCap(LineCapStyle),
    SetLineJoin(LineJoinStyle),
    SetMiterLimit(Single),
    SetGlobalAlpha(Single),
    SetGlobalComposition(CompositionOrBlending),
    SetTransform(Transform2D<Single>),
    SetShadowOffsetX(Double),
    SetShadowOffsetY(Double),
    SetShadowBlur(Double),
    SetShadowColor(RGBA),
    SetFont(FontStyle),
    SetTextAlign(TextAlign),
    SetTextBaseline(TextBaseline),
    Recreate(Size2D<u64>),
}

} // verus!
