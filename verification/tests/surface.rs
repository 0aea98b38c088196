use canvas::bytes::ByteBuffer;
use canvas::geometry::{Point2D, Rect, Size2D, Transform2D};
use canvas::message::{CanvasMessage, FontStyle};
use canvas::scalar::{Double, Single};
use canvas::style::{
    BlendingStyle, CompositionOrBlending, FillOrStrokeStyle, LineCapStyle, LineJoinStyle,
    TextAlign, TextBaseline,
};
use canvas::surface::{
    handle_canvas_message, handle_canvas_messages, pixels_fill_rect, ImageData, SurfaceCall,
};
use cssparser::RGBA;

fn single(value: f32) -> Single {
    Single { bits: value.to_bits() }
}

fn double(value: f64) -> Double {
    Double { bits: value.to_bits() }
}

fn point(x: f32, y: f32) -> Point2D<Single> {
    Point2D { x: single(x), y: single(y) }
}

fn rect(x: f32, y: f32, width: f32, height: f32) -> Rect<Single> {
    Rect { origin: point(x, y), size: Size2D { width: single(width), height: single(height) } }
}

fn rect64(x: f64, y: f64, width: f64, height: f64) -> Rect<Double> {
    Rect {
        origin: Point2D { x: double(x), y: double(y) },
        size: Size2D { width: double(width), height: double(height) },
    }
}

fn pixel_rect(x: u64, y: u64, width: u64, height: u64) -> Rect<u64> {
    Rect { origin: Point2D { x, y }, size: Size2D { width, height } }
}

fn red() -> FillOrStrokeStyle {
    FillOrStrokeStyle::Color(RGBA::new(255, 0, 0, 255))
}

#[test]
fn painting_commands_set_their_style_first() {
    assert_eq!(
        handle_canvas_message(CanvasMessage::FillRect(rect(0.0, 0.0, 10.0, 10.0), red())),
        vec![SurfaceCall::SetFillStyle(red()), SurfaceCall::FillRect(rect(0.0, 0.0, 10.0, 10.0))]
    );
    assert_eq!(
        handle_canvas_message(CanvasMessage::StrokeRect(rect(1.0, 2.0, 3.0, 4.0), red())),
        vec![SurfaceCall::SetStrokeStyle(red()), SurfaceCall::StrokeRect(rect(1.0, 2.0, 3.0, 4.0))]
    );
    assert_eq!(
        handle_canvas_message(CanvasMessage::Fill(red())),
        vec![SurfaceCall::SetFillStyle(red()), SurfaceCall::Fill]
    );
    assert_eq!(
        handle_canvas_message(CanvasMessage::Stroke(red())),
        vec![SurfaceCall::SetStrokeStyle(red()), SurfaceCall::Stroke]
    );
    assert_eq!(
        handle_canvas_message(CanvasMessage::FillText(
            "hello".to_string(),
            double(1.0),
            double(2.0),
            Some(double(30.0)),
            red(),
            true
        )),
        vec![
            SurfaceCall::SetFillStyle(red()),
            SurfaceCall::FillText("hello".to_string(), double(1.0), double(2.0), Some(double(30.0)), true)
        ]
    );
}

#[test]
fn path_commands_become_one_call_each() {
    assert_eq!(handle_canvas_message(CanvasMessage::BeginPath), vec![SurfaceCall::BeginPath]);
    assert_eq!(handle_canvas_message(CanvasMessage::ClosePath), vec![SurfaceCall::ClosePath]);
    assert_eq!(handle_canvas_message(CanvasMessage::Clip), vec![SurfaceCall::Clip]);
    assert_eq!(
        handle_canvas_message(CanvasMessage::MoveTo(point(1.0, 2.0))),
        vec![SurfaceCall::MoveTo(point(1.0, 2.0))]
    );
    assert_eq!(
        handle_canvas_message(CanvasMessage::LineTo(point(3.0, 4.0))),
        vec![SurfaceCall::LineTo(point(3.0, 4.0))]
    );
    assert_eq!(
        handle_canvas_message(CanvasMessage::Rect(rect(0.0, 1.0, 2.0, 3.0))),
        vec![SurfaceCall::Rect(rect(0.0, 1.0, 2.0, 3.0))]
    );
    assert_eq!(
        handle_canvas_message(CanvasMessage::ClearRect(rect(0.0, 1.0, 2.0, 3.0))),
        vec![SurfaceCall::ClearRect(rect(0.0, 1.0, 2.0, 3.0))]
    );
    assert_eq!(
        handle_canvas_message(CanvasMessage::QuadraticCurveTo(point(1.0, 2.0), point(3.0, 4.0))),
        vec![SurfaceCall::QuadraticCurveTo(point(1.0, 2.0), point(3.0, 4.0))]
    );
    assert_eq!(
        handle_canvas_message(CanvasMessage::BezierCurveTo(
            point(1.0, 2.0),
            point(3.0, 4.0),
            point(5.0, 6.0)
        )),
        vec![SurfaceCall::BezierCurveTo(point(1.0, 2.0), point(3.0, 4.0), point(5.0, 6.0))]
    );
    assert_eq!(
        handle_canvas_message(CanvasMessage::Arc(
            point(1.0, 2.0),
            single(3.0),
            single(0.0),
            single(1.5),
            true
        )),
        vec![SurfaceCall::Arc(point(1.0, 2.0), single(3.0), single(0.0), single(1.5), true)]
    );
    assert_eq!(
        handle_canvas_message(CanvasMessage::ArcTo(point(1.0, 2.0), point(3.0, 4.0), single(5.0))),
        vec![SurfaceCall::ArcTo(point(1.0, 2.0), point(3.0, 4.0), single(5.0))]
    );
    assert_eq!(
        handle_canvas_message(CanvasMessage::Ellipse(
            point(1.0, 2.0),
            single(3.0),
            single(4.0),
            single(0.5),
            single(0.0),
            single(6.0),
            false
        )),
        vec![SurfaceCall::Ellipse(
            point(1.0, 2.0),
            single(3.0),
            single(4.0),
            single(0.5),
            single(0.0),
            single(6.0),
            false
        )]
    );
}

#[test]
fn state_commands_become_one_call_each() {
    assert_eq!(
        handle_canvas_message(CanvasMessage::SaveContext),
        vec![SurfaceCall::SaveContextState]
    );
    assert_eq!(
        handle_canvas_message(CanvasMessage::RestoreContext),
        vec![SurfaceCall::RestoreContextState]
    );
    assert_eq!(
        handle_canvas_message(CanvasMessage::SetLineWidth(single(2.5))),
        vec![SurfaceCall::SetLineWidth(single(2.5))]
    );
    assert_eq!(
        handle_canvas_message(CanvasMessage::SetLineCap(LineCapStyle::Round)),
        vec![SurfaceCall::SetLineCap(LineCapStyle::Round)]
    );
    assert_eq!(
        handle_canvas_message(CanvasMessage::SetLineJoin(LineJoinStyle::Bevel)),
        vec![SurfaceCall::SetLineJoin(LineJoinStyle::Bevel)]
    );
    assert_eq!(
        handle_canvas_message(CanvasMessage::SetMiterLimit(single(10.0))),
        vec![SurfaceCall::SetMiterLimit(single(10.0))]
    );
    assert_eq!(
        handle_canvas_message(CanvasMessage::SetGlobalAlpha(single(0.5))),
        vec![SurfaceCall::SetGlobalAlpha(single(0.5))]
    );
    assert_eq!(
        handle_canvas_message(CanvasMessage::SetGlobalComposition(
            CompositionOrBlending::Blending(BlendingStyle::Screen)
        )),
        vec![SurfaceCall::SetGlobalComposition(CompositionOrBlending::Blending(
            BlendingStyle::Screen
        ))]
    );
    let transform = Transform2D {
        m11: single(2.0),
        m12: single(0.0),
        m21: single(0.0),
        m22: single(2.0),
        m31: single(5.0),
        m32: single(6.0),
    };
    assert_eq!(
        handle_canvas_message(CanvasMessage::SetTransform(transform)),
        vec![SurfaceCall::SetTransform(transform)]
    );
    assert_eq!(
        handle_canvas_message(CanvasMessage::SetShadowOffsetX(double(1.0))),
        vec![SurfaceCall::SetShadowOffsetX(double(1.0))]
    );
    assert_eq!(
        handle_canvas_message(CanvasMessage::SetShadowOffsetY(double(2.0))),
        vec![SurfaceCall::SetShadowOffsetY(double(2.0))]
    );
    assert_eq!(
        handle_canvas_message(CanvasMessage::SetShadowBlur(double(3.0))),
        vec![SurfaceCall::SetShadowBlur(double(3.0))]
    );
    assert_eq!(
        handle_canvas_message(CanvasMessage::SetShadowColor(RGBA::new(1, 2, 3, 4))),
        vec![SurfaceCall::SetShadowColor(RGBA::new(1, 2, 3, 4))]
    );
    let font = FontStyle { font: "10px sans-serif".to_string() };
    assert_eq!(
        handle_canvas_message(CanvasMessage::SetFont(font.clone())),
        vec![SurfaceCall::SetFont(font)]
    );
    assert_eq!(
        handle_canvas_message(CanvasMessage::SetTextAlign(TextAlign::Center)),
        vec![SurfaceCall::SetTextAlign(TextAlign::Center)]
    );
    assert_eq!(
        handle_canvas_message(CanvasMessage::SetTextBaseline(TextBaseline::Middle)),
        vec![SurfaceCall::SetTextBaseline(TextBaseline::Middle)]
    );
    assert_eq!(
        handle_canvas_message(CanvasMessage::Recreate(Size2D { width: 3, height: 4 })),
        vec![SurfaceCall::Recreate(Size2D { width: 3, height: 4 })]
    );
}

#[test]
fn image_with_pixels_is_drawn_from_them() {
    let calls = handle_canvas_message(CanvasMessage::DrawImage(
        Some(ByteBuffer::from_vec(vec![9, 8, 7, 6])),
        Size2D { width: double(1.0), height: double(1.0) },
        rect64(5.0, 5.0, 1.0, 1.0),
        rect64(0.0, 0.0, 1.0, 1.0),
        true,
    ));
    assert_eq!(
        calls,
        vec![SurfaceCall::DrawImage(
            ImageData::Pixels(ByteBuffer::from_vec(vec![9, 8, 7, 6])),
            Size2D { width: double(1.0), height: double(1.0) },
            rect64(5.0, 5.0, 1.0, 1.0),
            rect64(0.0, 0.0, 1.0, 1.0),
            true
        )]
    );
    match calls.into_iter().next() {
        Some(SurfaceCall::DrawImage(data, _, _, _, _)) => {
            assert_eq!(data.into_vec(), vec![9, 8, 7, 6])
        },
        other => panic!("{:?}", other),
    }
}

#[test]
fn image_without_pixels_is_drawn_blank() {
    let calls = handle_canvas_message(CanvasMessage::DrawImage(
        None,
        Size2D { width: double(3.0), height: double(2.5) },
        rect64(0.0, 0.0, 3.0, 2.0),
        rect64(0.0, 0.0, 3.0, 2.0),
        false,
    ));
    assert_eq!(
        calls,
        vec![SurfaceCall::DrawImage(
            ImageData::Blank(24),
            Size2D { width: double(3.0), height: double(2.5) },
            rect64(0.0, 0.0, 3.0, 2.0),
            rect64(0.0, 0.0, 3.0, 2.0),
            false
        )]
    );
    assert_eq!(ImageData::Blank(24).into_vec(), vec![0u8; 24]);
    assert_eq!(ImageData::Blank(0).into_vec(), Vec::<u8>::new());
}

#[test]
fn blank_image_too_large_is_dropped() {
    let calls = handle_canvas_message(CanvasMessage::DrawImage(
        None,
        Size2D { width: double(1e19), height: double(1e19) },
        rect64(0.0, 0.0, 3.0, 2.0),
        rect64(0.0, 0.0, 3.0, 2.0),
        false,
    ));
    assert_eq!(calls, vec![]);
}

#[test]
fn pixels_are_written_only_when_they_fill_their_rectangle() {
    let pixels = || ByteBuffer::from_vec(vec![1u8; 24]);
    assert_eq!(
        handle_canvas_message(CanvasMessage::PutImageData(pixel_rect(1, 1, 3, 2), pixels())),
        vec![SurfaceCall::PutImageData(pixels(), pixel_rect(1, 1, 3, 2))]
    );
    assert_eq!(
        handle_canvas_message(CanvasMessage::PutImageData(pixel_rect(1, 1, 3, 3), pixels())),
        vec![]
    );
    assert_eq!(
        handle_canvas_message(CanvasMessage::PutImageData(
            pixel_rect(0, 0, u64::MAX, u64::MAX),
            pixels()
        )),
        vec![]
    );
    assert!(pixels_fill_rect(&pixels(), &pixel_rect(0, 0, 6, 1)));
    assert!(!pixels_fill_rect(&pixels(), &pixel_rect(0, 0, 6, 0)));
    assert!(pixels_fill_rect(&ByteBuffer::from_vec(vec![]), &pixel_rect(0, 0, 6, 0)));
    assert!(!pixels_fill_rect(&pixels(), &pixel_rect(0, 0, 1 << 62, 4)));
}

#[test]
fn batch_is_handled_command_by_command() {
    let batch = vec![
        CanvasMessage::BeginPath,
        CanvasMessage::MoveTo(point(0.0, 0.0)),
        CanvasMessage::LineTo(point(5.0, 5.0)),
        CanvasMessage::Stroke(red()),
        CanvasMessage::PutImageData(pixel_rect(0, 0, 1, 1), ByteBuffer::from_vec(vec![1, 2, 3])),
        CanvasMessage::FillRect(rect(0.0, 0.0, 1.0, 1.0), red()),
    ];
    assert_eq!(
        handle_canvas_messages(batch),
        vec![
            SurfaceCall::BeginPath,
            SurfaceCall::MoveTo(point(0.0, 0.0)),
            SurfaceCall::LineTo(point(5.0, 5.0)),
            SurfaceCall::SetStrokeStyle(red()),
            SurfaceCall::Stroke,
            SurfaceCall::SetFillStyle(red()),
            SurfaceCall::FillRect(rect(0.0, 0.0, 1.0, 1.0)),
        ]
    );
    assert_eq!(handle_canvas_messages(vec![]), vec![]);
}

#[test]
fn byte_buffer_keeps_its_bytes() {
    let buffer = ByteBuffer::from_vec(vec![5, 6, 7]);
    assert_eq!(buffer.len(), 3);
    let copy = buffer.clone();
    assert_eq!(copy, buffer);
    assert_eq!(copy.into_vec(), vec![5, 6, 7]);
    assert_eq!(buffer.into_vec(), vec![5, 6, 7]);
    assert_eq!(ByteBuffer::from_vec(vec![]).len(), 0);
    assert_ne!(ByteBuffer::from_vec(vec![1]), ByteBuffer::from_vec(vec![2]));
}
