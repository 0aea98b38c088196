//! The raster surface, seen from the actor that owns it.
//!
//! The surface itself lives outside this library: it fills paths, strokes
//! lines and shapes text. What the library decides is which operations the
//! surface is asked to perform for a command, and in what order.

use crate::bytes::ByteBuffer;
use crate::geometry::{Point2D, Rect, Size2D, Transform2D};
use crate::image::CanvasImageData;
use crate::message::{CanvasMessage, FontStyle};
use crate::scalar::{Double, Single};
use crate::style::{
    CompositionOrBlending, FillOrStrokeStyle, FillRule, LineCapStyle, LineJoinStyle, TextAlign,
    TextBaseline,
};
use cssparser::RGBA;
use vstd::prelude::*;

verus! {

/// The pixels of an image that is to be drawn.
#[derive(Debug, PartialEq)]
pub enum ImageData {
    /// Four bytes for each pixel, row after row.
    Pixels(ByteBuffer),
    /// So many bytes, all of them zero: an image of which only the size is
    /// known.
    Blank(usize),
}

impl ImageData {
    /// The bytes of the image.
    pub open spec fn bytes(self) -> Seq<u8> {
        match self {
            ImageData::Pixels(buffer) => buffer@,
            ImageData::Blank(length) => Seq::new(length as nat, |i: int| 0u8),
        }
    }

    /// The bytes of the image, as a vector.
    pub fn into_vec(self) -> (bytes: Vec<u8>)
        ensures
            bytes@ == self.bytes(),
    {
        match self {
            ImageData::Pixels(buffer) => buffer.into_vec(),
            ImageData::Blank(length) => {
                let bytes = vec![0u8; length];
                assert(bytes@ =~= self.bytes());
                bytes
            },
        }
    }
}

/// One operation that changes the surface and returns nothing.
#[derive(Debug, PartialEq)]
pub enum SurfaceCall {
    SetFillStyle(FillOrStrokeStyle),
    SetStrokeStyle(FillOrStrokeStyle),
    FillText(String, Double, Double, Option<Double>, bool),
    FillRect(Rect<Single>),
    StrokeRect(Rect<Single>),
    ClearRect(Rect<Single>),
    BeginPath,
    ClosePath,
    Fill,
    Stroke,
    Clip,
    DrawImage(ImageData, Size2D<Double>, Rect<Double>, Rect<Double>, bool),
    MoveTo(Point2D<Single>),
    LineTo(Point2D<Single>),
    Rect(Rect<Single>),
    PutImageData(ByteBuffer, Rect<u64>),
    QuadraticCurveTo(Point2D<Single>, Point2D<Single>),
    BezierCurveTo(Point2D<Single>, Point2D<Single>, Point2D<Single>),
    Arc(Point2D<Single>, Single, Single, Single, bool),
    ArcTo(Point2D<Single>, Point2D<Single>, Single),
    Ellipse(Point2D<Single>, Single, Single, Single, Single, Single, bool),
    RestoreContextState,
    SaveContextState,
    SetLineWidth(Single),
    SetLineCap(LineCapStyle),
    SetLineJoin(LineJoinStyle),
    SetMiterLimit(Single),
    SetTransform(Transform2D<Single>),
    SetGlobalAlpha(Single),
    SetGlobalComposition(CompositionOrBlending),
    SetShadowOffsetX(Double),
    SetShadowOffsetY(Double),
    SetShadowBlur(Double),
    SetShadowColor(RGBA),
    SetFont(FontStyle),
    SetTextAlign(TextAlign),
    SetTextBaseline(TextBaseline),
    Recreate(Size2D<u64>),
}

/// One question put to the surface, which changes nothing.
#[derive(Clone, Copy, Debug, PartialEq, Eq, Structural)]
pub enum SurfaceQuery {
    /// The current transform.
    GetTransform,
    /// The pixels of a rectangle of a canvas of the size given.
    ReadPixels(Rect<u64>, Size2D<u64>),
    /// Whether the point `(x, y)` lies inside the current path.
    IsPointInPath(Double, Double, FillRule),
    /// A handle by which the rendering pipeline presents the surface.
    GetData,
    /// All the pixels of the surface.
    GetPixels,
}

/// What the surface answers to a question.
#[derive(Debug, PartialEq)]
pub enum SurfaceAnswer {
    Transform(Transform2D<Single>),
    Pixels(Vec<u8>),
    IsPointInPath(bool),
    Data(Option<CanvasImageData>),
    AllPixels(Vec<u8>),
}

/// An answer of the surface, with its bytes laid out as a sequence.
pub enum AnswerView {
    Transform(Transform2D<Single>),
    Pixels(Seq<u8>),
    IsPointInPath(bool),
    Data(Option<CanvasImageData>),
    AllPixels(Seq<u8>),
}

impl View for SurfaceAnswer {
    type V = AnswerView;

    open spec fn view(&self) -> AnswerView {
        match *self {
            SurfaceAnswer::Transform(transform) => AnswerView::Transform(transform),
            SurfaceAnswer::Pixels(pixels) => AnswerView::Pixels(pixels@),
            SurfaceAnswer::IsPointInPath(inside) => AnswerView::IsPointInPath(inside),
            SurfaceAnswer::Data(image) => AnswerView::Data(image),
            SurfaceAnswer::AllPixels(pixels) => AnswerView::AllPixels(pixels@),
        }
    }
}

/// How many bytes an image of `image_size` takes at four bytes a pixel, or
/// `None` where that count does not fit a `usize`. Each side counts as
/// its whole part.
pub open spec fn blank_image_len(image_size: Size2D<Double>) -> Option<usize> {
    let width = if image_size.width.whole() <= usize::MAX {
        image_size.width.whole()
    } else {
        usize::MAX as nat
    };
    let height = if image_size.height.whole() <= usize::MAX {
        image_size.height.whole()
    } else {
        usize::MAX as nat
    };
    if width * height * 4 <= usize::MAX {
        Some((width * height * 4) as usize)
    } else {
        None
    }
}

/// Whether `length` bytes are exactly the pixels of `rect`, at four bytes
/// a pixel.
pub open spec fn fills_rect(length: nat, rect: Rect<u64>) -> bool {
    length == rect.size.width * rect.size.height * 4
}

/// The operations that carry out `message`, in the order in which the
/// surface is to perform them.
///
/// A command that paints with a style first sets that style. An image
/// without pixels is drawn blank. Pixels that do not fill their rectangle,
/// and a blank image too large to hold, ask nothing of the surface.
pub open spec fn calls_of(message: CanvasMessage) -> Seq<SurfaceCall> {
    match message {
        CanvasMessage::FillText(text, x, y, max_width, style, is_rtl) => seq![
            SurfaceCall::SetFillStyle(style),
            SurfaceCall::FillText(text, x, y, max_width, is_rtl),
        ],
        CanvasMessage::FillRect(rect, style) => seq![
            SurfaceCall::SetFillStyle(style),
            SurfaceCall::FillRect(rect),
        ],
        CanvasMessage::StrokeRect(rect, style) => seq![
            SurfaceCall::SetStrokeStyle(style),
            SurfaceCall::StrokeRect(rect),
        ],
        CanvasMessage::ClearRect(rect) => seq![SurfaceCall::ClearRect(rect)],
        CanvasMessage::BeginPath => seq![SurfaceCall::BeginPath],
        CanvasMessage::ClosePath => seq![SurfaceCall::ClosePath],
        CanvasMessage::Fill(style) => seq![SurfaceCall::SetFillStyle(style), SurfaceCall::Fill],
        CanvasMessage::Stroke(style) => seq![
            SurfaceCall::SetStrokeStyle(style),
            SurfaceCall::Stroke,
        ],
        CanvasMessage::Clip => seq![SurfaceCall::Clip],
        CanvasMessage::DrawImage(imagedata, image_size, dest_rect, source_rect, smoothing) => {
            match imagedata {
                Some(pixels) => seq![
                    SurfaceCall::DrawImage(
                        ImageData::Pixels(pixels),
                        image_size,
                        dest_rect,
                        source_rect,
                        smoothing,
                    ),
                ],
                None => match blank_image_len(image_size) {
                    Some(length) => seq![
                        SurfaceCall::DrawImage(
                            ImageData::Blank(length),
                            image_size,
                            dest_rect,
                            source_rect,
                            smoothing,
                        ),
                    ],
                    None => seq![],
                },
            }
        },
        CanvasMessage::MoveTo(point) => seq![SurfaceCall::MoveTo(point)],
        CanvasMessage::LineTo(point) => seq![SurfaceCall::LineTo(point)],
        CanvasMessage::Rect(rect) => seq![SurfaceCall::Rect(rect)],
        CanvasMessage::PutImageData(rect, pixels) => if fills_rect(pixels@.len(), rect) {
            seq![SurfaceCall::PutImageData(pixels, rect)]
        } else {
            seq![]
        },
        CanvasMessage::QuadraticCurveTo(cp, pt) => seq![SurfaceCall::QuadraticCurveTo(cp, pt)],
        CanvasMessage::BezierCurveTo(cp1, cp2, pt) => seq![
            SurfaceCall::BezierCurveTo(cp1, cp2, pt),
        ],
        CanvasMessage::Arc(center, radius, start, end, ccw) => seq![
            SurfaceCall::Arc(center, radius, start, end, ccw),
        ],
        CanvasMessage::ArcTo(cp1, cp2, radius) => seq![SurfaceCall::ArcTo(cp1, cp2, radius)],
        CanvasMessage::Ellipse(center, radius_x, radius_y, rotation, start, end, ccw) => seq![
            SurfaceCall::Ellipse(center, radius_x, radius_y, rotation, start, end, ccw),
        ],
        CanvasMessage::RestoreContext => seq![SurfaceCall::RestoreContextState],
        CanvasMessage::SaveContext => seq![SurfaceCall::SaveContextState],
        CanvasMessage::SetLineWidth(width) => seq![SurfaceCall::SetLineWidth(width)],
        CanvasMessage::SetLineCap(cap) => seq![SurfaceCall::SetLineCap(cap)],
        CanvasMessage::SetLineJoin(join) => seq![SurfaceCall::SetLineJoin(join)],
        CanvasMessage::SetMiterLimit(limit) => seq![SurfaceCall::SetMiterLimit(limit)],
        CanvasMessage::SetTransform(matrix) => seq![SurfaceCall::SetTransform(matrix)],
        CanvasMessage::SetGlobalAlpha(alpha) => seq![SurfaceCall::SetGlobalAlpha(alpha)],
        CanvasMessage::SetGlobalComposition(op) => seq![SurfaceCall::SetGlobalComposition(op)],
        CanvasMessage::SetShadowOffsetX(value) => seq![SurfaceCall::SetShadowOffsetX(value)],
        CanvasMessage::SetShadowOffsetY(value) => seq![SurfaceCall::SetShadowOffsetY(value)],
        CanvasMessage::SetShadowBlur(value) => seq![SurfaceCall::SetShadowBlur(value)],
        CanvasMessage::SetShadowColor(color) => seq![SurfaceCall::SetShadowColor(color)],
        CanvasMessage::SetFont(font_style) => seq![SurfaceCall::SetFont(font_style)],
        CanvasMessage::SetTextAlign(text_align) => seq![SurfaceCall::SetTextAlign(text_align)],
        CanvasMessage::SetTextBaseline(text_baseline) => seq![
            SurfaceCall::SetTextBaseline(text_baseline),
        ],
        CanvasMessage::Recreate(size) => seq![SurfaceCall::Recreate(size)],
    }
}

/// Counts the bytes of a blank image of `image_size`.
pub fn blank_image(image_size: Size2D<Double>) -> (length: Option<usize>)
    ensures
        length == blank_image_len(image_size),
{
    let width = image_size.width.to_usize();
    let height = image_size.height.to_usize();
    match width.checked_mul(height) {
        Some(pixels) => {
            let length = pixels.checked_mul(4);
            proof {
                assert(width * height * 4 == pixels * 4) by (nonlinear_arith)
                    requires
                        pixels == width * height,
                ;
            }
            length
        },
        None => {
            proof {
                assert(width * height * 4 > usize::MAX) by (nonlinear_arith)
                    requires
                        width * height > usize::MAX,
                ;
            }
            None
        },
    }
}

/// Whether `pixels` are exactly the pixels of `rect`.
pub fn pixels_fill_rect(pixels: &ByteBuffer, rect: &Rect<u64>) -> (fills: bool)
    ensures
        fills == fills_rect(pixels@.len(), *rect),
{
    let length = pixels.len();
    let width = rect.size.width;
    let height = rect.size.height;
    match width.checked_mul(height) {
        Some(area) => match area.checked_mul(4) {
            Some(expected) => {
                proof {
                    assert(width * height * 4 == area * 4) by (nonlinear_arith)
                        requires
                            area == width * height,
                    ;
                }
                length as u64 == expected
            },
            None => {
                proof {
                    assert(width * height * 4 == area * 4) by (nonlinear_arith)
                        requires
                            area == width * height,
                    ;
                }
                false
            },
        },
        None => {
            proof {
                assert(width * height * 4 > u64::MAX) by (nonlinear_arith)
                    requires
                        width * height > u64::MAX,
                ;
            }
            false
        },
    }
}

/// Turns one command into the operations that the surface must perform
/// for it, in order.
pub fn handle_canvas_message(message: CanvasMessage) -> (calls: Vec<SurfaceCall>)
    ensures
        calls@ == calls_of(message),
{
    let mut calls: Vec<SurfaceCall> = Vec::new();
    match message {
        CanvasMessage::FillText(text, x, y, max_width, style, is_rtl) => {
            calls.push(SurfaceCall::SetFillStyle(style));
            calls.push(SurfaceCall::FillText(text, x, y, max_width, is_rtl));
        },
        CanvasMessage::FillRect(rect, style) => {
            calls.push(SurfaceCall::SetFillStyle(style));
            calls.push(SurfaceCall::FillRect(rect));
        },
        CanvasMessage::StrokeRect(rect, style) => {
            calls.push(SurfaceCall::SetStrokeStyle(style));
            calls.push(SurfaceCall::StrokeRect(rect));
        },
        CanvasMessage::ClearRect(rect) => calls.push(SurfaceCall::ClearRect(rect)),
        CanvasMessage::BeginPath => calls.push(SurfaceCall::BeginPath),
        CanvasMessage::ClosePath => calls.push(SurfaceCall::ClosePath),
        CanvasMessage::Fill(style) => {
            calls.push(SurfaceCall::SetFillStyle(style));
            calls.push(SurfaceCall::Fill);
        },
        CanvasMessage::Stroke(style) => {
            calls.push(SurfaceCall::SetStrokeStyle(style));
            calls.push(SurfaceCall::Stroke);
        },
        CanvasMessage::Clip => calls.push(SurfaceCall::Clip),
        CanvasMessage::DrawImage(imagedata, image_size, dest_rect, source_rect, smoothing) => {
            let data = match imagedata {
                Some(pixels) => Some(ImageData::Pixels(pixels)),
                None => match blank_image(image_size) {
                    Some(length) => Some(ImageData::Blank(length)),
                    None => None,
                },
            };
            if let Some(data) = data {
                calls.push(
                    SurfaceCall::DrawImage(data, image_size, dest_rect, source_rect, smoothing),
                );
            }
        },
        CanvasMessage::MoveTo(point) => calls.push(SurfaceCall::MoveTo(point)),
        CanvasMessage::LineTo(point) => calls.push(SurfaceCall::LineTo(point)),
        CanvasMessage::Rect(rect) => calls.push(SurfaceCall::Rect(rect)),
        CanvasMessage::PutImageData(rect, pixels) => {
            if pixels_fill_rect(&pixels, &rect) {
                calls.push(SurfaceCall::PutImageData(pixels, rect));
            }
        },
        CanvasMessage::QuadraticCurveTo(cp, pt) => {
            calls.push(SurfaceCall::QuadraticCurveTo(cp, pt))
        },
        CanvasMessage::BezierCurveTo(cp1, cp2, pt) => {
            calls.push(SurfaceCall::BezierCurveTo(cp1, cp2, pt))
        },
        CanvasMessage::Arc(center, radius, start, end, ccw) => {
            calls.push(SurfaceCall::Arc(center, radius, start, end, ccw))
        },
        CanvasMessage::ArcTo(cp1, cp2, radius) => calls.push(SurfaceCall::ArcTo(cp1, cp2, radius)),
        CanvasMessage::Ellipse(center, radius_x, radius_y, rotation, start, end, ccw) => {
            calls.push(SurfaceCall::Ellipse(center, radius_x, radius_y, rotation, start, end, ccw))
        },
        CanvasMessage::RestoreContext => calls.push(SurfaceCall::RestoreContextState),
        CanvasMessage::SaveContext => calls.push(SurfaceCall::SaveContextState),
        CanvasMessage::SetLineWidth(width) => calls.push(SurfaceCall::SetLineWidth(width)),
        CanvasMessage::SetLineCap(cap) => calls.push(SurfaceCall::SetLineCap(cap)),
        CanvasMessage::SetLineJoin(join) => calls.push(SurfaceCall::SetLineJoin(join)),
        CanvasMessage::SetMiterLimit(limit) => calls.push(SurfaceCall::SetMiterLimit(limit)),
        CanvasMessage::SetTransform(matrix) => calls.push(SurfaceCall::SetTransform(matrix)),
        CanvasMessage::SetGlobalAlpha(alpha) => calls.push(SurfaceCall::SetGlobalAlpha(alpha)),
        CanvasMessage::SetGlobalComposition(op) => {
            calls.push(SurfaceCall::SetGlobalComposition(op))
        },
        CanvasMessage::SetShadowOffsetX(value) => calls.push(SurfaceCall::SetShadowOffsetX(value)),
        CanvasMessage::SetShadowOffsetY(value) => calls.push(SurfaceCall::SetShadowOffsetY(value)),
        CanvasMessage::SetShadowBlur(value) => calls.push(SurfaceCall::SetShadowBlur(value)),
        CanvasMessage::SetShadowColor(color) => calls.push(SurfaceCall::SetShadowColor(color)),
        CanvasMessage::SetFont(font_style) => calls.push(SurfaceCall::SetFont(font_style)),
        CanvasMessage::SetTextAlign(text_align) => {
            calls.push(SurfaceCall::SetTextAlign(text_align))
        },
        CanvasMessage::SetTextBaseline(text_baseline) => {
            calls.push(SurfaceCall::SetTextBaseline(text_baseline))
        },
        CanvasMessage::Recreate(size) => calls.push(SurfaceCall::Recreate(size)),
    }
    assert(calls@ =~= calls_of(message));
    calls
}

/// The operations that carry out `messages` one after the other.
pub open spec fn calls_of_all(messages: Seq<CanvasMessage>) -> Seq<SurfaceCall>
    decreases messages.len(),
{
    if messages.len() == 0 {
        seq![]
    } else {
        calls_of_all(messages.drop_last()) + calls_of(messages.last())
    }
}

/// Turns a batch of commands into the operations that the surface must
/// perform for them: those of the first command, then those of the
/// second, and so on.
pub fn handle_canvas_messages(messages: Vec<CanvasMessage>) -> (calls: Vec<SurfaceCall>)
    ensures
        calls@ == calls_of_all(messages@),
{
    let ghost all = messages@;
    let mut calls: Vec<SurfaceCall> = Vec::new();
    for message in iter: messages
        invariant
            iter.seq() == all,
            calls@ == calls_of_all(all.take(iter.index() as int)),
    {
        assert(all.take(iter.index() + 1).drop_last() =~= all.take(iter.index() as int));
        let mut more = handle_canvas_message(message);
        calls.append(&mut more);
    }
    assert(all.take(all.len() as int) =~= all);
    calls
}

} // verus!
