use canvas::actor::{CanvasAction, CanvasEvent, CanvasState, Payload, Reply};
use canvas::bytes::ByteBuffer;
use canvas::caller::{converse, Caller, ChannelOp};
use canvas::canvas::Canvas;
use canvas::channel::{Menu, SharedChannel};
use canvas::geometry::{Point2D, Rect, Size2D, Transform2D};
use canvas::message::CanvasMessage;
use canvas::protocol::{CanvasOps, ValueKind};
use canvas::scalar::{Double, Single};
use canvas::session::CanvasSession;
use canvas::style::{FillOrStrokeStyle, FillRule};
use canvas::surface::{SurfaceCall, SurfaceQuery};
use canvas::transfer::{draw_image_in_other, Party, TransferAction, TransferStage};
use cssparser::RGBA;

fn single(value: f32) -> Single {
    Single { bits: value.to_bits() }
}

fn double(value: f64) -> Double {
    Double { bits: value.to_bits() }
}

fn rect(x: u64, y: u64, width: u64, height: u64) -> Rect<u64> {
    Rect { origin: Point2D { x, y }, size: Size2D { width, height } }
}

fn rect32(x: f32, y: f32, width: f32, height: f32) -> Rect<Single> {
    Rect {
        origin: Point2D { x: single(x), y: single(y) },
        size: Size2D { width: single(width), height: single(height) },
    }
}

fn rect64(x: f64, y: f64, width: f64, height: f64) -> Rect<Double> {
    Rect {
        origin: Point2D { x: double(x), y: double(y) },
        size: Size2D { width: double(width), height: double(height) },
    }
}

fn scale(factor: f32) -> Transform2D<Single> {
    Transform2D {
        m11: single(factor),
        m12: single(0.0),
        m21: single(0.0),
        m22: single(factor),
        m31: single(0.0),
        m32: single(0.0),
    }
}

/// A canvas with the little drawing that these tests need: rectangles are
/// filled with a plain colour, and images are copied without scaling.
struct Station {
    shared: SharedChannel,
    canvas: Canvas,
    fill: RGBA,
    reply: Option<Reply>,
    log: Vec<ChannelOp>,
}

impl Station {
    fn new(width: u64, height: u64) -> Station {
        Station {
            shared: SharedChannel::new(Menu::full()),
            canvas: Canvas::new(Size2D { width, height }).unwrap(),
            fill: RGBA::new(0, 0, 0, 0),
            reply: None,
            log: Vec::new(),
        }
    }

    fn draw(&mut self, calls: Vec<SurfaceCall>) {
        for call in calls {
            match call {
                SurfaceCall::SetFillStyle(FillOrStrokeStyle::Color(color)) => self.fill = color,
                SurfaceCall::FillRect(area) => {
                    let area = rect(
                        f32::from_bits(area.origin.x.bits) as u64,
                        f32::from_bits(area.origin.y.bits) as u64,
                        f32::from_bits(area.size.width.bits) as u64,
                        f32::from_bits(area.size.height.bits) as u64,
                    );
                    let pixel = [self.fill.red, self.fill.green, self.fill.blue, self.fill.alpha];
                    let bytes: Vec<u8> =
                        (0..area.size.width * area.size.height).flat_map(|_| pixel).collect();
                    assert!(self.canvas.surface.put_image_data(&bytes, area));
                },
                SurfaceCall::DrawImage(data, _, dest_rect, source_rect, _) => {
                    let mut area = dest_rect.to_u64();
                    area.size = source_rect.to_u64().size;
                    assert!(self.canvas.surface.put_image_data(&data.into_vec(), area));
                },
                // Noted by the bookkeeping; nothing here depends on them.
                SurfaceCall::SetTransform(_)
                | SurfaceCall::SaveContextState
                | SurfaceCall::RestoreContextState
                | SurfaceCall::Recreate(_) => {},
                other => panic!("no drawing for {:?}", other),
            }
        }
    }

    fn handle(&mut self, event: CanvasEvent) {
        let mut action = self.canvas.handle(event);
        loop {
            action = match action {
                CanvasAction::Perform(calls) => return self.draw(calls),
                CanvasAction::Send(reply) => return self.reply = Some(reply),
                CanvasAction::Receive(_) => return,
                CanvasAction::Ask(SurfaceQuery::IsPointInPath(_, _, _)) => self.canvas.handle(
                    CanvasEvent::Answered(canvas::surface::SurfaceAnswer::IsPointInPath(false)),
                ),
                other => panic!("{:?}", other),
            }
        }
    }

    /// The channel lets the operation through, and the canvas serves it.
    fn perform(&mut self, caller: &mut Caller, op: ChannelOp) -> Option<Reply> {
        assert_eq!(caller.perform(&mut self.shared, &op), Ok(()));
        match op {
            ChannelOp::Select(label) => self.handle(CanvasEvent::Selected(label)),
            ChannelOp::SendValue(payload) => self.handle(CanvasEvent::Received(payload)),
            ChannelOp::ReceiveValue(_) => return self.reply.take(),
            ChannelOp::Acquire | ChannelOp::Release => {},
        }
        None
    }

    fn converse(&mut self, label: CanvasOps, payload: Option<Payload>) -> Option<Reply> {
        let mut caller = Caller::new();
        let mut reply = None;
        for op in converse(label, payload).unwrap() {
            reply = self.perform(&mut caller, op).or(reply);
        }
        assert_eq!(self.canvas.state, CanvasState::Offering);
        reply
    }

    fn read(&mut self, area: Rect<u64>) -> Vec<u8> {
        let size = self.canvas.surface.size();
        match self.converse(CanvasOps::GetImageData, Some(Payload::Region(area, size))) {
            Some(Reply::Pixels(pixels)) => pixels.into_vec(),
            other => panic!("{:?}", other),
        }
    }
}

#[test]
fn pixels_written_are_the_pixels_read_back() {
    let mut station = Station::new(8, 8);
    let bytes: Vec<u8> = (0..3 * 2 * 4).map(|i| 50 + i as u8).collect();
    let patch = Payload::Patch(rect(2, 3, 3, 2), ByteBuffer::from_vec(bytes.clone()));
    assert_eq!(station.converse(CanvasOps::PutImageData, Some(patch)), None);
    assert_eq!(station.read(rect(2, 3, 3, 2)), bytes);
    // The same through a command.
    let bytes: Vec<u8> = (0..4 * 4 * 4).map(|i| 200 - i as u8).collect();
    let command =
        CanvasMessage::PutImageData(rect(4, 4, 4, 4), ByteBuffer::from_vec(bytes.clone()));
    station.converse(CanvasOps::Message, Some(Payload::Message(command)));
    assert_eq!(station.read(rect(4, 4, 4, 4)), bytes);
}

#[test]
fn pixels_written_over_the_edge_are_read_back_cut_off() {
    let mut station = Station::new(4, 4);
    let bytes: Vec<u8> = (0..2 * 2 * 4).map(|i| 10 + i as u8).collect();
    let patch = Payload::Patch(rect(3, 3, 2, 2), ByteBuffer::from_vec(bytes));
    station.converse(CanvasOps::PutImageData, Some(patch));
    assert_eq!(station.read(rect(3, 3, 2, 2)), vec![10, 11, 12, 13]);
}

#[test]
fn transform_after_a_resize_is_the_identity() {
    let mut station = Station::new(4, 4);
    for factor in [2.0, 3.0] {
        let command = CanvasMessage::SetTransform(scale(factor));
        station.converse(CanvasOps::Message, Some(Payload::Message(command)));
        station.converse(CanvasOps::Message, Some(Payload::Message(CanvasMessage::SaveContext)));
    }
    assert_eq!(
        station.converse(CanvasOps::GetTransform, None),
        Some(Reply::Transform(scale(3.0)))
    );
    station.converse(CanvasOps::Recreate, Some(Payload::Size(Size2D { width: 2, height: 2 })));
    assert_eq!(
        station.converse(CanvasOps::GetTransform, None),
        Some(Reply::Transform(Transform2D::<Single>::identity()))
    );
    assert_eq!(station.read(rect(0, 0, 2, 2)), vec![0u8; 16]);
    // The same through a command, and nothing saved is left to restore.
    station.converse(CanvasOps::Message, Some(Payload::Message(CanvasMessage::SetTransform(scale(7.0)))));
    let command = CanvasMessage::Recreate(Size2D { width: 3, height: 1 });
    station.converse(CanvasOps::Message, Some(Payload::Message(command)));
    station.converse(CanvasOps::Message, Some(Payload::Message(CanvasMessage::RestoreContext)));
    assert_eq!(
        station.converse(CanvasOps::GetTransform, None),
        Some(Reply::Transform(Transform2D::<Single>::identity()))
    );
}

#[test]
fn snapshots_of_a_canvas() {
    let mut station = Station::new(2, 1);
    let bytes: Vec<u8> = (1..=8).collect();
    let patch = Payload::Patch(rect(0, 0, 2, 1), ByteBuffer::from_vec(bytes.clone()));
    station.converse(CanvasOps::PutImageData, Some(patch));
    assert_eq!(station.converse(CanvasOps::FromScript, None), Some(Reply::ScriptImage(bytes)));
    // A canvas without a pixel has nothing to present.
    let mut empty = Station::new(0, 5);
    assert_eq!(empty.converse(CanvasOps::FromLayout, None), Some(Reply::LayoutImage(None)));
    assert_eq!(empty.converse(CanvasOps::FromScript, None), Some(Reply::ScriptImage(vec![])));
}

#[test]
fn questions_about_paths_are_left_to_the_caller() {
    let mut canvas = Canvas::new(Size2D { width: 2, height: 2 }).unwrap();
    assert_eq!(
        canvas.handle(CanvasEvent::Selected(CanvasOps::IsPointInPath)),
        CanvasAction::Receive(ValueKind::Point)
    );
    let point = Payload::Point(double(1.0), double(1.0), FillRule::Nonzero);
    assert_eq!(
        canvas.handle(CanvasEvent::Received(point)),
        CanvasAction::Ask(SurfaceQuery::IsPointInPath(double(1.0), double(1.0), FillRule::Nonzero))
    );
    assert_eq!(canvas.state, CanvasState::Answering(CanvasOps::IsPointInPath));
    assert_eq!(
        canvas.handle(CanvasEvent::Selected(CanvasOps::FromLayout)),
        CanvasAction::Fail(canvas::protocol::ProtocolError::NotAtMenu)
    );
    assert_eq!(canvas.state, CanvasState::Released);
}

#[test]
fn drawing_is_left_to_the_caller_and_pixel_writes_are_not() {
    let mut canvas = Canvas::new(Size2D { width: 2, height: 2 }).unwrap();
    canvas.handle(CanvasEvent::Selected(CanvasOps::Messages));
    let red = || FillOrStrokeStyle::Color(RGBA::new(255, 0, 0, 255));
    let batch = vec![
        CanvasMessage::SetTransform(scale(2.0)),
        CanvasMessage::FillRect(rect32(0.0, 0.0, 1.0, 1.0), red()),
        CanvasMessage::SaveContext,
        CanvasMessage::PutImageData(rect(1, 1, 1, 1), ByteBuffer::from_vec(vec![1, 2, 3, 4])),
        CanvasMessage::Clip,
    ];
    assert_eq!(
        canvas.handle(CanvasEvent::Received(Payload::Messages(batch))),
        CanvasAction::Perform(vec![
            SurfaceCall::SetTransform(scale(2.0)),
            SurfaceCall::SetFillStyle(red()),
            SurfaceCall::FillRect(rect32(0.0, 0.0, 1.0, 1.0)),
            SurfaceCall::SaveContextState,
            SurfaceCall::Clip,
        ])
    );
    assert_eq!(canvas.surface.get_transform(), scale(2.0));
    assert_eq!(canvas.surface.read_pixels(rect(1, 1, 1, 1)), vec![1, 2, 3, 4]);
}

#[test]
fn red_square_is_copied_from_one_canvas_to_another() {
    let mut source = Station::new(20, 20);
    let mut target = Station::new(20, 20);
    let red = FillOrStrokeStyle::Color(RGBA::new(255, 0, 0, 255));
    let square = CanvasMessage::FillRect(rect32(5.0, 5.0, 10.0, 10.0), red);
    source.converse(CanvasOps::Message, Some(Payload::Message(square)));
    assert_eq!(target.read(rect(0, 0, 20, 20)), vec![0u8; 1600]);

    // The region holds the square and a margin of blank pixels.
    let region = rect(3, 4, 13, 12);
    let mut transfer = draw_image_in_other(
        Size2D { width: double(20.0), height: double(20.0) },
        rect64(6.0, 2.0, 13.0, 12.0),
        rect64(3.0, 4.0, 13.0, 12.0),
        false,
    );
    let mut caller = Caller::new();
    let mut received = None;
    let mut holding: Option<Party> = None;
    loop {
        let (next, action) = transfer.advance(received.take());
        transfer = next;
        match action {
            TransferAction::Perform(party, op) => {
                // One canvas at a time.
                match op {
                    ChannelOp::Acquire => assert_eq!(holding.replace(party), None),
                    ChannelOp::Release => assert_eq!(holding.take(), Some(party)),
                    _ => assert_eq!(holding, Some(party)),
                }
                let station = match party {
                    Party::Source => &mut source,
                    Party::Target => &mut target,
                };
                station.log.push(match &op {
                    ChannelOp::Acquire => ChannelOp::Acquire,
                    ChannelOp::Select(label) => ChannelOp::Select(*label),
                    ChannelOp::SendValue(_) => ChannelOp::SendValue(Payload::Messages(vec![])),
                    ChannelOp::ReceiveValue(kind) => ChannelOp::ReceiveValue(*kind),
                    ChannelOp::Release => ChannelOp::Release,
                });
                received = station.perform(&mut caller, op);
            },
            TransferAction::Done => break,
            TransferAction::GiveUp => panic!("the transfer gave up"),
        }
    }
    assert_eq!(transfer.stage, TransferStage::Finished);
    assert_eq!(holding, None);
    let placeholder = || ChannelOp::SendValue(Payload::Messages(vec![]));
    assert_eq!(
        source.log,
        vec![
            ChannelOp::Acquire,
            ChannelOp::Select(CanvasOps::GetImageData),
            placeholder(),
            ChannelOp::ReceiveValue(ValueKind::Pixels),
            ChannelOp::Release,
        ]
    );
    assert_eq!(
        target.log,
        vec![
            ChannelOp::Acquire,
            ChannelOp::Select(CanvasOps::Message),
            placeholder(),
            ChannelOp::Release,
        ]
    );

    let copied = target.read(rect(6, 2, 13, 12));
    assert_eq!(copied, source.read(region));
    // And it is the red square with its margin, not just any bytes.
    for (index, pixel) in copied.chunks(4).enumerate() {
        let (x, y) = (3 + index % 13, 4 + index / 13);
        let inside = (5..15).contains(&x) && (5..15).contains(&y);
        assert_eq!(pixel, if inside { [255, 0, 0, 255] } else { [0, 0, 0, 0] });
    }
    // Both channels are free again.
    assert!(source.shared.acquire().is_some());
    assert!(target.shared.acquire().is_some());
}

#[test]
fn caller_holds_one_channel_at_a_time() {
    let mut first = SharedChannel::new(Menu::full());
    let mut second = SharedChannel::new(Menu::full());
    let mut caller = Caller::new();
    assert_eq!(caller.perform(&mut first, &ChannelOp::Acquire), Ok(()));
    // While it holds the first channel it gets no second one, and with the
    // refusal it loses the first, which stays taken for good.
    assert_eq!(
        caller.perform(&mut second, &ChannelOp::Acquire),
        Err(canvas::protocol::ProtocolError::Busy)
    );
    assert!(second.acquire().is_some());
    assert!(first.acquire().is_none());
    assert_eq!(
        caller.perform(&mut first, &ChannelOp::Select(CanvasOps::Message)),
        Err(canvas::protocol::ProtocolError::NotAcquired)
    );
}

#[test]
fn caller_is_refused_what_the_protocol_does_not_allow() {
    let refused = |ops: Vec<ChannelOp>, error| {
        let mut shared = SharedChannel::new(Menu::new(vec![CanvasOps::GetImageData]));
        let mut caller = Caller::new();
        let count = ops.len();
        for (index, op) in ops.into_iter().enumerate() {
            let result = caller.perform(&mut shared, &op);
            assert_eq!(result, if index + 1 == count { Err(error) } else { Ok(()) });
        }
    };
    let region = || {
        Payload::Region(rect(0, 0, 1, 1), Size2D { width: 1, height: 1 })
    };
    refused(vec![ChannelOp::Release], canvas::protocol::ProtocolError::NotAcquired);
    refused(
        vec![ChannelOp::SendValue(region())],
        canvas::protocol::ProtocolError::NotAcquired,
    );
    refused(
        vec![ChannelOp::ReceiveValue(ValueKind::Pixels)],
        canvas::protocol::ProtocolError::NotAcquired,
    );
    refused(
        vec![ChannelOp::Acquire, ChannelOp::Select(CanvasOps::Message)],
        canvas::protocol::ProtocolError::UnofferedLabel,
    );
    refused(
        vec![ChannelOp::Acquire, ChannelOp::Release],
        canvas::protocol::ProtocolError::NothingSelected,
    );
    refused(
        vec![ChannelOp::Acquire, ChannelOp::SendValue(region())],
        canvas::protocol::ProtocolError::NothingSelected,
    );
    refused(
        vec![
            ChannelOp::Acquire,
            ChannelOp::Select(CanvasOps::GetImageData),
            ChannelOp::Select(CanvasOps::GetImageData),
        ],
        canvas::protocol::ProtocolError::NotAtMenu,
    );
    refused(
        vec![
            ChannelOp::Acquire,
            ChannelOp::Select(CanvasOps::GetImageData),
            ChannelOp::ReceiveValue(ValueKind::Pixels),
        ],
        canvas::protocol::ProtocolError::OutOfOrder,
    );
    refused(
        vec![
            ChannelOp::Acquire,
            ChannelOp::Select(CanvasOps::GetImageData),
            ChannelOp::SendValue(region()),
            ChannelOp::Release,
        ],
        canvas::protocol::ProtocolError::Unfinished,
    );
}

#[test]
fn every_conversation_is_let_through() {
    let size = Size2D { width: 2, height: 2 };
    let payloads = || {
        vec![
            (CanvasOps::Message, Some(Payload::Message(CanvasMessage::BeginPath))),
            (CanvasOps::Messages, Some(Payload::Messages(vec![]))),
            (CanvasOps::GetTransform, None),
            (CanvasOps::GetImageData, Some(Payload::Region(rect(0, 0, 1, 1), size))),
            (
                CanvasOps::PutImageData,
                Some(Payload::Patch(rect(0, 0, 1, 1), ByteBuffer::from_vec(vec![0; 4]))),
            ),
            (
                CanvasOps::IsPointInPath,
                Some(Payload::Point(double(0.0), double(0.0), FillRule::Nonzero)),
            ),
            (CanvasOps::FromLayout, None),
            (CanvasOps::FromScript, None),
            (CanvasOps::Recreate, Some(Payload::Size(size))),
        ]
    };
    let mut shared = SharedChannel::new(Menu::full());
    let mut caller = Caller::new();
    for (label, payload) in payloads() {
        for op in converse(label, payload).unwrap() {
            assert_eq!(caller.perform(&mut shared, &op), Ok(()));
        }
    }
    assert!(shared.acquire().is_some());
}

#[test]
fn transfer_asks_for_its_operations_in_order() {
    let size = Size2D { width: double(8.5), height: double(6.0) };
    let dest = rect64(1.0, 1.0, 2.0, 2.0);
    let source = rect64(3.9, 4.2, 2.0, 2.0);
    let transfer = draw_image_in_other(size, dest, source, true);
    assert_eq!(transfer.stage, TransferStage::Start);
    let (transfer, action) = transfer.advance(None);
    assert_eq!(action, TransferAction::Perform(Party::Source, ChannelOp::Acquire));
    let (transfer, action) = transfer.advance(None);
    assert_eq!(
        action,
        TransferAction::Perform(Party::Source, ChannelOp::Select(CanvasOps::GetImageData))
    );
    let (transfer, action) = transfer.advance(None);
    assert_eq!(
        action,
        TransferAction::Perform(
            Party::Source,
            ChannelOp::SendValue(Payload::Region(rect(3, 4, 2, 2), Size2D { width: 8, height: 6 }))
        )
    );
    let (transfer, action) = transfer.advance(None);
    assert_eq!(
        action,
        TransferAction::Perform(Party::Source, ChannelOp::ReceiveValue(ValueKind::Pixels))
    );
    let image = || ByteBuffer::from_vec(vec![7u8; 16]);
    let (transfer, action) = transfer.advance(Some(Reply::Pixels(image())));
    assert_eq!(action, TransferAction::Perform(Party::Source, ChannelOp::Release));
    let (transfer, action) = transfer.advance(None);
    assert_eq!(action, TransferAction::Perform(Party::Target, ChannelOp::Acquire));
    let (transfer, action) = transfer.advance(None);
    assert_eq!(
        action,
        TransferAction::Perform(Party::Target, ChannelOp::Select(CanvasOps::Message))
    );
    let (transfer, action) = transfer.advance(None);
    assert_eq!(
        action,
        TransferAction::Perform(
            Party::Target,
            ChannelOp::SendValue(Payload::Message(CanvasMessage::DrawImage(
                Some(image()),
                source.size,
                dest,
                source,
                true
            )))
        )
    );
    let (transfer, action) = transfer.advance(None);
    assert_eq!(action, TransferAction::Perform(Party::Target, ChannelOp::Release));
    let (transfer, action) = transfer.advance(None);
    assert_eq!(action, TransferAction::Done);
    assert_eq!(transfer.stage, TransferStage::Finished);
    let (transfer, action) = transfer.advance(None);
    assert_eq!(action, TransferAction::Done);
    assert_eq!(transfer.stage, TransferStage::Finished);
}

#[test]
fn transfer_gives_up_on_anything_but_pixels_in_their_turn() {
    let start = || {
        draw_image_in_other(
            Size2D { width: double(1.0), height: double(1.0) },
            rect64(0.0, 0.0, 1.0, 1.0),
            rect64(0.0, 0.0, 1.0, 1.0),
            false,
        )
    };
    // A value before any was waited for.
    let (transfer, action) = start().advance(Some(Reply::IsPointInPath(true)));
    assert_eq!(action, TransferAction::GiveUp);
    assert_eq!(transfer.stage, TransferStage::Failed);
    // No value, or the wrong one, when pixels were waited for.
    for answer in [None, Some(Reply::ScriptImage(vec![1, 2, 3, 4]))] {
        let mut transfer = start();
        for _ in 0..4 {
            transfer = transfer.advance(None).0;
        }
        assert_eq!(transfer.stage, TransferStage::AwaitingPixels);
        let (transfer, action) = transfer.advance(answer);
        assert_eq!(action, TransferAction::GiveUp);
        assert_eq!(transfer.stage, TransferStage::Failed);
        let (transfer, action) = transfer.advance(None);
        assert_eq!(action, TransferAction::GiveUp);
        assert_eq!(transfer.stage, TransferStage::Failed);
    }
}

#[test]
fn batched_commands_reach_the_canvas_before_the_channel_is_used() {
    let mut station = Station::new(4, 4);
    let mut session = CanvasSession::new(());
    let bytes: Vec<u8> = (0..16).collect();
    session.send_canvas_message(CanvasMessage::PutImageData(
        rect(0, 0, 2, 2),
        ByteBuffer::from_vec(bytes.clone()),
    ));
    session.send_canvas_message(CanvasMessage::SetTransform(scale(2.0)));
    // A read-back needs the channel: the session flushes first.
    let (batch, _) = session.get_shared_channel();
    station.converse(CanvasOps::Messages, Some(Payload::Messages(batch.unwrap())));
    assert_eq!(station.read(rect(0, 0, 2, 2)), bytes);
    assert_eq!(
        station.converse(CanvasOps::GetTransform, None),
        Some(Reply::Transform(scale(2.0)))
    );
}
