//! Copying pixels from one canvas into another.
//!
//! The copy reads a rectangle of the source canvas and draws it as an
//! image on the target canvas. It talks to one canvas at a time: the
//! source's channel is released before the target's is acquired, so that
//! two copies running in opposite directions cannot wait on each other.
//!
//! The transfer does not touch a channel itself. It tells its caller which
//! operation comes next, and the caller tells it what came back.

use crate::actor::{Payload, Reply};
use crate::bytes::ByteBuffer;
use crate::caller::{
    conversation, converses, held, lemma_conversation_converses, lemma_conversation_is_accepted,
    ChannelOp, Link,
};
use crate::geometry::{Rect, Size2D};
use crate::message::CanvasMessage;
use crate::protocol::{CanvasOps, ProtocolError, ValueKind};
use crate::scalar::Double;
use vstd::prelude::*;

verus! {

/// The two canvases of a transfer.
#[derive(Clone, Copy, Debug, PartialEq, Eq, Structural)]
pub enum Party {
    /// The canvas that the pixels are read from.
    Source,
    /// The canvas that the pixels are drawn on.
    Target,
}

/// How far a transfer has come.
#[derive(Clone, Copy, Debug, PartialEq, Eq, Structural)]
pub enum TransferStage {
    /// Nothing has been done yet.
    Start,
    /// The source is acquired.
    SourceAcquired,
    /// The source has been told that pixels are to be read.
    SourceSelected,
    /// The source has been told which pixels.
    RegionSent,
    /// The pixels are awaited.
    AwaitingPixels,
    /// The pixels are here and the source is released.
    SourceReleased,
    /// The target is acquired.
    TargetAcquired,
    /// The target has been told that a command follows.
    TargetSelected,
    /// The target has the command.
    ImageSent,
    /// The target is released: the transfer is over.
    Finished,
    /// The source did not answer with pixels: the transfer is given up.
    Failed,
}

/// What a transfer asks of its caller.
#[derive(Debug, PartialEq)]
pub enum TransferAction {
    /// Carry out this operation on the channel of this canvas, then come
    /// back.
    Perform(Party, ChannelOp),
    /// Nothing is left to do.
    Done,
    /// The transfer cannot go on.
    GiveUp,
}

/// A transfer under way.
#[derive(Debug, PartialEq)]
pub struct Transfer {
    /// How far it has come.
    pub stage: TransferStage,
    /// The size of the canvas that is read from.
    pub image_size: Size2D<Double>,
    /// Where on the target the image is drawn.
    pub dest_rect: Rect<Double>,
    /// The rectangle of the source that is read.
    pub source_rect: Rect<Double>,
    /// Whether the image is smoothed when it is scaled.
    pub smoothing: bool,
    /// The pixels read from the source, once they are here and until they
    /// are sent on.
    pub image: Option<ByteBuffer>,
}

/// Starts a transfer of `source_rect` of the source canvas, which is of
/// size `image_size`, to `dest_rect` of the target canvas.
pub fn draw_image_in_other(
    image_size: Size2D<Double>,
    dest_rect: Rect<Double>,
    source_rect: Rect<Double>,
    smoothing: bool,
) -> (transfer: Transfer)
    ensures
        transfer == (Transfer {
            stage: TransferStage::Start,
            image_size,
            dest_rect,
            source_rect,
            smoothing,
            image: None,
        }),
{
    Transfer {
        stage: TransferStage::Start,
        image_size,
        dest_rect,
        source_rect,
        smoothing,
        image: None,
    }
}

impl Transfer {
    /// The request that the source is sent: the rectangle to read and the
    /// size of the canvas, both in whole pixels.
    pub open spec fn request(self) -> Payload {
        Payload::Region(self.source_rect.to_u64(), self.image_size.to_u64())
    }

    /// The command that the target is sent: to draw `image`, of the size
    /// of the rectangle it was read from, into the target rectangle.
    pub open spec fn command(self, image: ByteBuffer) -> CanvasMessage {
        CanvasMessage::DrawImage(
            Some(image),
            self.source_rect.size,
            self.dest_rect,
            self.source_rect,
            self.smoothing,
        )
    }

    /// The transfer at a later stage.
    pub open spec fn at(self, stage: TransferStage) -> Transfer {
        Transfer { stage, ..self }
    }

    /// The transfer one step on, and what its caller is to do. `received`
    /// is what the caller got from the operation before, where that was to
    /// wait for a value, and `None` else.
    pub open spec fn advanced(self, received: Option<Reply>) -> (Transfer, TransferAction) {
        match (self.stage, received) {
            (TransferStage::Start, None) => (
                self.at(TransferStage::SourceAcquired),
                TransferAction::Perform(Party::Source, ChannelOp::Acquire),
            ),
            (TransferStage::SourceAcquired, None) => (
                self.at(TransferStage::SourceSelected),
                TransferAction::Perform(Party::Source, ChannelOp::Select(CanvasOps::GetImageData)),
            ),
            (TransferStage::SourceSelected, None) => (
                self.at(TransferStage::RegionSent),
                TransferAction::Perform(Party::Source, ChannelOp::SendValue(self.request())),
            ),
            (TransferStage::RegionSent, None) => (
                self.at(TransferStage::AwaitingPixels),
                TransferAction::Perform(Party::Source, ChannelOp::ReceiveValue(ValueKind::Pixels)),
            ),
            (TransferStage::AwaitingPixels, Some(Reply::Pixels(image))) => (
                Transfer { stage: TransferStage::SourceReleased, image: Some(image), ..self },
                TransferAction::Perform(Party::Source, ChannelOp::Release),
            ),
            (TransferStage::SourceReleased, None) => (
                self.at(TransferStage::TargetAcquired),
                TransferAction::Perform(Party::Target, ChannelOp::Acquire),
            ),
            (TransferStage::TargetAcquired, None) => (
                self.at(TransferStage::TargetSelected),
                TransferAction::Perform(Party::Target, ChannelOp::Select(CanvasOps::Message)),
            ),
            (TransferStage::TargetSelected, None) => match self.image {
                Some(image) => (
                    Transfer { stage: TransferStage::ImageSent, image: None, ..self },
                    TransferAction::Perform(
                        Party::Target,
                        ChannelOp::SendValue(Payload::Message(self.command(image))),
                    ),
                ),
                None => (self.at(TransferStage::Failed), TransferAction::GiveUp),
            },
            (TransferStage::ImageSent, None) => (
                self.at(TransferStage::Finished),
                TransferAction::Perform(Party::Target, ChannelOp::Release),
            ),
            (TransferStage::Finished, None) => (self, TransferAction::Done),
            _ => (self.at(TransferStage::Failed), TransferAction::GiveUp),
        }
    }

    /// Takes the transfer one step on and tells what its caller is to do.
    pub fn advance(self, received: Option<Reply>) -> (next: (Transfer, TransferAction))
        ensures
            next == self.advanced(received),
    {
        let Transfer { stage, image_size, dest_rect, source_rect, smoothing, image } = self;
        let (stage, image, action) = match (stage, received) {
            (TransferStage::Start, None) => (
                TransferStage::SourceAcquired,
                image,
                TransferAction::Perform(Party::Source, ChannelOp::Acquire),
            ),
            (TransferStage::SourceAcquired, None) => (
                TransferStage::SourceSelected,
                image,
                TransferAction::Perform(Party::Source, ChannelOp::Select(CanvasOps::GetImageData)),
            ),
            (TransferStage::SourceSelected, None) => (
                TransferStage::RegionSent,
                image,
                TransferAction::Perform(
                    Party::Source,
                    ChannelOp::SendValue(
                        Payload::Region(source_rect.to_u64(), image_size.to_u64()),
                    ),
                ),
            ),
            (TransferStage::RegionSent, None) => (
                TransferStage::AwaitingPixels,
                image,
                TransferAction::Perform(Party::Source, ChannelOp::ReceiveValue(ValueKind::Pixels)),
            ),
            (TransferStage::AwaitingPixels, Some(Reply::Pixels(pixels))) => (
                TransferStage::SourceReleased,
                Some(pixels),
                TransferAction::Perform(Party::Source, ChannelOp::Release),
            ),
            (TransferStage::SourceReleased, None) => (
                TransferStage::TargetAcquired,
                image,
                TransferAction::Perform(Party::Target, ChannelOp::Acquire),
            ),
            (TransferStage::TargetAcquired, None) => (
                TransferStage::TargetSelected,
                image,
                TransferAction::Perform(Party::Target, ChannelOp::Select(CanvasOps::Message)),
            ),
            (TransferStage::TargetSelected, None) => match image {
                Some(pixels) => (
                    TransferStage::ImageSent,
                    None,
                    TransferAction::Perform(
                        Party::Target,
                        ChannelOp::SendValue(
                            Payload::Message(
                                CanvasMessage::DrawImage(
                                    Some(pixels),
                                    source_rect.size,
                                    dest_rect,
                                    source_rect,
                                    smoothing,
                                ),
                            ),
                        ),
                    ),
                ),
                None => (TransferStage::Failed, None, TransferAction::GiveUp),
            },
            (TransferStage::ImageSent, None) => (
                TransferStage::Finished,
                image,
                TransferAction::Perform(Party::Target, ChannelOp::Release),
            ),
            (TransferStage::Finished, None) => (
                TransferStage::Finished,
                image,
                TransferAction::Done,
            ),
            _ => (TransferStage::Failed, image, TransferAction::GiveUp),
        };
        (Transfer { stage, image_size, dest_rect, source_rect, smoothing, image }, action)
    }

    /// The conversation with the source: one reading of pixels.
    pub open spec fn source_script(self) -> Seq<ChannelOp> {
        conversation(CanvasOps::GetImageData, Some(self.request()))
    }

    /// The conversation with the target: one command, which draws `image`.
    pub open spec fn target_script(self, image: ByteBuffer) -> Seq<ChannelOp> {
        conversation(CanvasOps::Message, Some(Payload::Message(self.command(image))))
    }

    /// The operations of a transfer that goes well, each with the canvas
    /// it is for: the whole conversation with the source, and after it the
    /// whole conversation with the target. `image` stands for the pixels
    /// that the source answers with.
    pub open spec fn script(self, image: ByteBuffer) -> Seq<(Party, ChannelOp)> {
        self.source_script().map_values(|op: ChannelOp| (Party::Source, op))
            + self.target_script(image).map_values(|op: ChannelOp| (Party::Target, op))
    }
}

/// What the caller hands to a transfer that goes well, step by step: the
/// pixels `image` once they have been waited for, and nothing else.
pub open spec fn answers(image: ByteBuffer) -> Seq<Option<Reply>> {
    seq![
        None,
        None,
        None,
        None,
        Some(Reply::Pixels(image)),
        None,
        None,
        None,
        None,
        None,
    ]
}

/// What a transfer asks of its caller, step by step, when the caller hands
/// it `received`.
pub open spec fn actions(transfer: Transfer, received: Seq<Option<Reply>>) -> Seq<TransferAction>
    decreases received.len(),
{
    if received.len() == 0 {
        seq![]
    } else {
        seq![transfer.advanced(received.first()).1] + actions(
            transfer.advanced(received.first()).0,
            received.drop_first(),
        )
    }
}

/// A transfer that is handed the source's pixels when it has waited for
/// them asks for the operations of its script, one at each step and in
/// order, and then is done.
pub proof fn lemma_transfer_follows_script(transfer: Transfer, image: ByteBuffer)
    requires
        transfer.stage == TransferStage::Start,
        transfer.image is None,
    ensures
        actions(transfer, answers(image)) == transfer.script(image).map_values(
            |op: (Party, ChannelOp)| TransferAction::Perform(op.0, op.1),
        ).push(TransferAction::Done),
{
    let received = answers(image);
    let expected = transfer.script(image).map_values(
        |op: (Party, ChannelOp)| TransferAction::Perform(op.0, op.1),
    ).push(TransferAction::Done);
    let t1 = transfer.advanced(received[0]).0;
    let t2 = t1.advanced(received[1]).0;
    let t3 = t2.advanced(received[2]).0;
    let t4 = t3.advanced(received[3]).0;
    let t5 = t4.advanced(received[4]).0;
    let t6 = t5.advanced(received[5]).0;
    let t7 = t6.advanced(received[6]).0;
    let t8 = t7.advanced(received[7]).0;
    let t9 = t8.advanced(received[8]).0;
    let t10 = t9.advanced(received[9]).0;
    let r1 = received.drop_first();
    let r2 = r1.drop_first();
    let r3 = r2.drop_first();
    let r4 = r3.drop_first();
    let r5 = r4.drop_first();
    let r6 = r5.drop_first();
    let r7 = r6.drop_first();
    let r8 = r7.drop_first();
    let r9 = r8.drop_first();
    let r10 = r9.drop_first();
    assert(actions(t10, r10) =~= seq![]);
    assert(actions(t9, r9) =~= expected.subrange(9, 10));
    assert(actions(t8, r8) =~= expected.subrange(8, 10));
    assert(actions(t7, r7) =~= expected.subrange(7, 10));
    assert(actions(t6, r6) =~= expected.subrange(6, 10));
    assert(actions(t5, r5) =~= expected.subrange(5, 10));
    assert(actions(t4, r4) =~= expected.subrange(4, 10));
    assert(actions(t3, r3) =~= expected.subrange(3, 10));
    assert(actions(t2, r2) =~= expected.subrange(2, 10));
    assert(actions(t1, r1) =~= expected.subrange(1, 10));
    assert(actions(transfer, received) =~= expected);
}

/// With each canvas a transfer keeps to the protocol: it acquires the
/// channel, selects one label, takes the caller's part in each step of
/// that label, in order, and releases the channel. So a source that reads
/// pixels and a target that takes commands, both free, let the transfer
/// through and are free again when it is over.
pub proof fn lemma_transfer_keeps_protocol(
    transfer: Transfer,
    image: ByteBuffer,
    source_menu: Set<CanvasOps>,
    target_menu: Set<CanvasOps>,
)
    requires
        source_menu.contains(CanvasOps::GetImageData),
        target_menu.contains(CanvasOps::Message),
    ensures
        converses(transfer.source_script(), CanvasOps::GetImageData),
        converses(transfer.target_script(image), CanvasOps::Message),
        (Link { free: true, held: None }).after_all(source_menu, transfer.source_script()) == Ok::<
            Link,
            ProtocolError,
        >(Link { free: true, held: None }),
        (Link { free: true, held: None }).after_all(target_menu, transfer.target_script(image))
            == Ok::<Link, ProtocolError>(Link { free: true, held: None }),
{
    let command = Payload::Message(transfer.command(image));
    lemma_conversation_converses(CanvasOps::GetImageData, Some(transfer.request()));
    lemma_conversation_converses(CanvasOps::Message, Some(command));
    lemma_conversation_is_accepted(source_menu, CanvasOps::GetImageData, Some(transfer.request()));
    lemma_conversation_is_accepted(target_menu, CanvasOps::Message, Some(command));
}

/// A transfer holds one channel at a time: at no point of its script are
/// two channels held, and at its end none is. As the script is the whole
/// conversation with the source followed by the whole conversation with
/// the target, the source is released before the target is acquired.
pub proof fn lemma_one_canvas_at_a_time(transfer: Transfer, image: ByteBuffer, done: int)
    requires
        0 <= done <= transfer.script(image).len(),
    ensures
        0 <= held(transfer.script(image).map_values(|op: (Party, ChannelOp)| op.1).take(done))
            <= 1,
        held(transfer.script(image).map_values(|op: (Party, ChannelOp)| op.1)) == 0,
{
    let ops = transfer.script(image).map_values(|op: (Party, ChannelOp)| op.1);
    assert(ops.take(0).len() == 0);
    assert(ops.take(1).drop_last() =~= ops.take(0));
    assert(ops.take(2).drop_last() =~= ops.take(1));
    assert(ops.take(3).drop_last() =~= ops.take(2));
    assert(ops.take(4).drop_last() =~= ops.take(3));
    assert(ops.take(5).drop_last() =~= ops.take(4));
    assert(ops.take(6).drop_last() =~= ops.take(5));
    assert(ops.take(7).drop_last() =~= ops.take(6));
    assert(ops.take(8).drop_last() =~= ops.take(7));
    assert(ops.take(9).drop_last() =~= ops.take(8));
    assert(held(ops.take(0)) == 0);
    assert(held(ops.take(1)) == 1);
    assert(held(ops.take(2)) == 1);
    assert(held(ops.take(3)) == 1);
    assert(held(ops.take(4)) == 1);
    assert(held(ops.take(5)) == 0);
    assert(held(ops.take(6)) == 1);
    assert(held(ops.take(7)) == 1);
    assert(held(ops.take(8)) == 1);
    assert(held(ops.take(9)) == 0);
    assert(ops.take(9) =~= ops);
}

} // verus!
