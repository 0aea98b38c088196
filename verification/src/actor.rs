//! The canvas actor: the state machine that serves the menu of a canvas.
//!
//! The actor owns one raster surface and is the only one to touch it. It
//! offers the menu, waits for a label, takes that label's steps and offers
//! the menu again, until the channel is dropped. The surface itself and the
//! channel are driven by the caller of this module: each call of
//! [`run_canvas_session`] takes what has just happened and tells what to do
//! next.

use crate::bytes::ByteBuffer;
use crate::channel::Menu;
use crate::geometry::{Rect, Size2D, Transform2D};
use crate::image::CanvasImageData;
use crate::message::CanvasMessage;
use crate::protocol::{CanvasOps, ProtocolError, ValueKind};
use crate::scalar::{Double, Single};
use crate::style::FillRule;
use crate::surface::{
    calls_of, calls_of_all, handle_canvas_message, handle_canvas_messages, AnswerView,
    SurfaceAnswer, SurfaceCall, SurfaceQuery,
};
use vstd::prelude::*;

verus! {

/// A value that the actor receives from a caller.
#[derive(Debug, PartialEq)]
pub enum Payload {
    /// One command.
    Message(CanvasMessage),
    /// A batch of commands.
    Messages(Vec<CanvasMessage>),
    /// The rectangle to read, and the size of the canvas it is read from.
    Region(Rect<u64>, Size2D<u64>),
    /// The rectangle to write, and its pixels.
    Patch(Rect<u64>, ByteBuffer),
    /// The point `(x, y)` to test, and the rule to test it by.
    Point(Double, Double, FillRule),
    /// The size of the new surface.
    Size(Size2D<u64>),
}

/// A value that the actor sends to a caller.
#[derive(Debug, PartialEq)]
pub enum Reply {
    Transform(Transform2D<Single>),
    Pixels(ByteBuffer),
    IsPointInPath(bool),
    LayoutImage(Option<CanvasImageData>),
    ScriptImage(Vec<u8>),
}

/// A reply, with its bytes laid out as a sequence.
pub enum ReplyView {
    Transform(Transform2D<Single>),
    Pixels(Seq<u8>),
    IsPointInPath(bool),
    LayoutImage(Option<CanvasImageData>),
    ScriptImage(Seq<u8>),
}

impl View for Reply {
    type V = ReplyView;

    open spec fn view(&self) -> ReplyView {
        match *self {
            Reply::Transform(transform) => ReplyView::Transform(transform),
            Reply::Pixels(pixels) => ReplyView::Pixels(pixels@),
            Reply::IsPointInPath(inside) => ReplyView::IsPointInPath(inside),
            Reply::LayoutImage(image) => ReplyView::LayoutImage(image),
            Reply::ScriptImage(pixels) => ReplyView::ScriptImage(pixels@),
        }
    }
}

/// Where the actor stands.
#[derive(Clone, Copy, Debug, PartialEq, Eq, Structural)]
pub enum CanvasState {
    /// The menu is offered.
    Offering,
    /// A label is selected and its value is awaited.
    Receiving(CanvasOps),
    /// A label is selected and the surface has been asked for the reply.
    Answering(CanvasOps),
    /// The channel is gone. Nothing leads out of this state.
    Released,
}

/// What has just happened.
#[derive(Debug, PartialEq)]
pub enum CanvasEvent {
    /// The caller selected a label.
    Selected(CanvasOps),
    /// The caller sent a value.
    Received(Payload),
    /// The surface answered the question put to it.
    Answered(SurfaceAnswer),
    /// The last holder of the channel let go of it.
    Dropped,
}

/// What to do next.
#[derive(Debug, PartialEq)]
pub enum CanvasAction {
    /// Wait for a value of this kind.
    Receive(ValueKind),
    /// Have the surface perform these operations in order, then offer the
    /// menu.
    Perform(Vec<SurfaceCall>),
    /// Put this question to the surface and hand back its answer.
    Ask(SurfaceQuery),
    /// Send this value to the caller, then offer the menu.
    Send(Reply),
    /// Give up the request that is under way, and offer the menu.
    Abort,
    /// Close the channel: its caller broke the protocol.
    Fail(ProtocolError),
    /// Shut down.
    Stop,
}

/// An action, with its operations and bytes laid out as sequences.
pub enum CanvasActionView {
    Receive(ValueKind),
    Perform(Seq<SurfaceCall>),
    Ask(SurfaceQuery),
    Send(ReplyView),
    Abort,
    Fail(ProtocolError),
    Stop,
}

impl View for CanvasAction {
    type V = CanvasActionView;

    open spec fn view(&self) -> CanvasActionView {
        match *self {
            CanvasAction::Receive(kind) => CanvasActionView::Receive(kind),
            CanvasAction::Perform(calls) => CanvasActionView::Perform(calls@),
            CanvasAction::Ask(query) => CanvasActionView::Ask(query),
            CanvasAction::Send(reply) => CanvasActionView::Send(reply@),
            CanvasAction::Abort => CanvasActionView::Abort,
            CanvasAction::Fail(error) => CanvasActionView::Fail(error),
            CanvasAction::Stop => CanvasActionView::Stop,
        }
    }
}

impl Payload {
    /// The kind of the value.
    pub open spec fn spec_kind(&self) -> ValueKind {
        match *self {
            Payload::Message(_) => ValueKind::Command,
            Payload::Messages(_) => ValueKind::Commands,
            Payload::Region(_, _) => ValueKind::Region,
            Payload::Patch(_, _) => ValueKind::Patch,
            Payload::Point(_, _, _) => ValueKind::Point,
            Payload::Size(_) => ValueKind::Size,
        }
    }

    /// The kind of the value.
    #[verifier::when_used_as_spec(spec_kind)]
    pub fn kind(&self) -> (kind: ValueKind)
        ensures
            kind == self.spec_kind(),
    {
        match self {
            Payload::Message(_) => ValueKind::Command,
            Payload::Messages(_) => ValueKind::Commands,
            Payload::Region(_, _) => ValueKind::Region,
            Payload::Patch(_, _) => ValueKind::Patch,
            Payload::Point(_, _, _) => ValueKind::Point,
            Payload::Size(_) => ValueKind::Size,
        }
    }
}

/// What the actor does with a value that it was waiting for.
///
/// Commands go to the surface. A rectangle to read is first cut down to
/// the canvas; nothing is asked of the surface for what is left empty.
pub open spec fn received(label: CanvasOps, payload: Payload) -> (CanvasState, CanvasActionView) {
    match payload {
        Payload::Message(message) => (
            CanvasState::Offering,
            CanvasActionView::Perform(calls_of(message)),
        ),
        Payload::Messages(messages) => (
            CanvasState::Offering,
            CanvasActionView::Perform(calls_of_all(messages@)),
        ),
        Payload::Region(rect, canvas_size) => if rect.clamp_to(canvas_size).is_empty() {
            (CanvasState::Offering, CanvasActionView::Send(ReplyView::Pixels(seq![])))
        } else {
            (
                CanvasState::Answering(label),
                CanvasActionView::Ask(
                    SurfaceQuery::ReadPixels(rect.clamp_to(canvas_size), canvas_size),
                ),
            )
        },
        Payload::Patch(rect, pixels) => (
            CanvasState::Offering,
            CanvasActionView::Perform(calls_of(CanvasMessage::PutImageData(rect, pixels))),
        ),
        Payload::Point(x, y, fill_rule) => (
            CanvasState::Answering(label),
            CanvasActionView::Ask(SurfaceQuery::IsPointInPath(x, y, fill_rule)),
        ),
        Payload::Size(size) => (
            CanvasState::Offering,
            CanvasActionView::Perform(seq![SurfaceCall::Recreate(size)]),
        ),
    }
}

/// The question whose answer is the reply under `label`, for a label that
/// receives nothing.
pub open spec fn question(label: CanvasOps) -> SurfaceQuery {
    match label {
        CanvasOps::FromLayout => SurfaceQuery::GetData,
        CanvasOps::FromScript => SurfaceQuery::GetPixels,
        _ => SurfaceQuery::GetTransform,
    }
}

/// The reply under `label` that hands on `answer`, where the answer is of
/// the kind that the label's question asks for.
pub open spec fn reply_to(label: CanvasOps, answer: AnswerView) -> Option<ReplyView> {
    match (label, answer) {
        (CanvasOps::GetTransform, AnswerView::Transform(transform)) => Some(
            ReplyView::Transform(transform),
        ),
        (CanvasOps::GetImageData, AnswerView::Pixels(pixels)) => Some(ReplyView::Pixels(pixels)),
        (CanvasOps::IsPointInPath, AnswerView::IsPointInPath(inside)) => Some(
            ReplyView::IsPointInPath(inside),
        ),
        (CanvasOps::FromLayout, AnswerView::Data(image)) => Some(ReplyView::LayoutImage(image)),
        (CanvasOps::FromScript, AnswerView::AllPixels(pixels)) => Some(
            ReplyView::ScriptImage(pixels),
        ),
        _ => None,
    }
}

/// What the actor does when its surface answers `answer`: under a label
/// that waits for an answer of that kind it sends the reply and offers the
/// menu again. Any other answer comes out of turn.
pub open spec fn answered(state: CanvasState, answer: AnswerView) -> (
    CanvasState,
    CanvasActionView,
) {
    match state {
        CanvasState::Answering(label) => match reply_to(label, answer) {
            Some(reply) => (CanvasState::Offering, CanvasActionView::Send(reply)),
            None => (CanvasState::Released, CanvasActionView::Fail(ProtocolError::OutOfOrder)),
        },
        CanvasState::Offering => (
            CanvasState::Released,
            CanvasActionView::Fail(ProtocolError::NothingSelected),
        ),
        CanvasState::Receiving(_) => (
            CanvasState::Released,
            CanvasActionView::Fail(ProtocolError::OutOfOrder),
        ),
        CanvasState::Released => (CanvasState::Released, CanvasActionView::Stop),
    }
}

/// The state that follows `state` on `event`, and what the actor does on
/// the way, for an actor that offers `menu`.
///
/// A label off the menu, and anything that comes out of turn, closes the
/// channel. A value of the wrong kind only ends the request that it came
/// with. Once released, the actor stays released.
pub open spec fn step(menu: Set<CanvasOps>, state: CanvasState, event: CanvasEvent) -> (
    CanvasState,
    CanvasActionView,
) {
    match (state, event) {
        (CanvasState::Released, _) => (CanvasState::Released, CanvasActionView::Stop),
        (_, CanvasEvent::Dropped) => (CanvasState::Released, CanvasActionView::Stop),
        (CanvasState::Offering, CanvasEvent::Selected(label)) => if !menu.contains(label) {
            (CanvasState::Released, CanvasActionView::Fail(ProtocolError::UnofferedLabel))
        } else {
            match label.request() {
                Some(kind) => (CanvasState::Receiving(label), CanvasActionView::Receive(kind)),
                None => (CanvasState::Answering(label), CanvasActionView::Ask(question(label))),
            }
        },
        (_, CanvasEvent::Selected(_)) => (
            CanvasState::Released,
            CanvasActionView::Fail(ProtocolError::NotAtMenu),
        ),
        (CanvasState::Receiving(label), CanvasEvent::Received(payload)) => if label.request()
            == Some(payload.kind()) {
            received(label, payload)
        } else {
            (CanvasState::Offering, CanvasActionView::Abort)
        },
        (CanvasState::Offering, CanvasEvent::Received(_)) => (
            CanvasState::Released,
            CanvasActionView::Fail(ProtocolError::NothingSelected),
        ),
        (CanvasState::Answering(_), CanvasEvent::Received(_)) => (
            CanvasState::Released,
            CanvasActionView::Fail(ProtocolError::OutOfOrder),
        ),
        (_, CanvasEvent::Answered(answer)) => answered(state, answer@),
    }
}

/// Handles a value that the actor was waiting for under `label`.
fn receive(label: CanvasOps, payload: Payload) -> (next: (CanvasState, CanvasAction))
    ensures
        next.0 == received(label, payload).0,
        next.1@ == received(label, payload).1,
{
    match payload {
        Payload::Message(message) => (
            CanvasState::Offering,
            CanvasAction::Perform(handle_canvas_message(message)),
        ),
        Payload::Messages(messages) => (
            CanvasState::Offering,
            CanvasAction::Perform(handle_canvas_messages(messages)),
        ),
        Payload::Region(rect, canvas_size) => {
            let clamped = rect.clamp_to(canvas_size);
            if clamped.is_empty() {
                let pixels = ByteBuffer::from_vec(Vec::new());
                assert(pixels@ =~= seq![]);
                (CanvasState::Offering, CanvasAction::Send(Reply::Pixels(pixels)))
            } else {
                (
                    CanvasState::Answering(label),
                    CanvasAction::Ask(SurfaceQuery::ReadPixels(clamped, canvas_size)),
                )
            }
        },
        Payload::Patch(rect, pixels) => (
            CanvasState::Offering,
            CanvasAction::Perform(handle_canvas_message(CanvasMessage::PutImageData(rect, pixels))),
        ),
        Payload::Point(x, y, fill_rule) => (
            CanvasState::Answering(label),
            CanvasAction::Ask(SurfaceQuery::IsPointInPath(x, y, fill_rule)),
        ),
        Payload::Size(size) => {
            let mut calls: Vec<SurfaceCall> = Vec::new();
            calls.push(SurfaceCall::Recreate(size));
            assert(calls@ =~= seq![SurfaceCall::Recreate(size)]);
            (CanvasState::Offering, CanvasAction::Perform(calls))
        },
    }
}

/// Turns the surface's answer into the reply under `label`.
fn reply(label: CanvasOps, answer: SurfaceAnswer) -> (reply: Option<Reply>)
    ensures
        match reply {
            Some(reply) => reply_to(label, answer@) == Some(reply@),
            None => reply_to(label, answer@) is None,
        },
{
    match (label, answer) {
        (CanvasOps::GetTransform, SurfaceAnswer::Transform(transform)) => Some(
            Reply::Transform(transform),
        ),
        (CanvasOps::GetImageData, SurfaceAnswer::Pixels(pixels)) => Some(
            Reply::Pixels(ByteBuffer::from_vec(pixels)),
        ),
        (CanvasOps::IsPointInPath, SurfaceAnswer::IsPointInPath(inside)) => Some(
            Reply::IsPointInPath(inside),
        ),
        (CanvasOps::FromLayout, SurfaceAnswer::Data(image)) => Some(Reply::LayoutImage(image)),
        (CanvasOps::FromScript, SurfaceAnswer::AllPixels(pixels)) => Some(
            Reply::ScriptImage(pixels),
        ),
        _ => None,
    }
}

/// Takes one step of the actor: from `state`, on `event`, to the state
/// that follows, with what is to be done on the way.
pub fn run_canvas_session(menu: &Menu, state: CanvasState, event: CanvasEvent) -> (next: (
    CanvasState,
    CanvasAction,
))
    ensures
        next.0 == step(menu@, state, event).0,
        next.1@ == step(menu@, state, event).1,
{
    match (state, event) {
        (CanvasState::Released, _) => (CanvasState::Released, CanvasAction::Stop),
        (_, CanvasEvent::Dropped) => (CanvasState::Released, CanvasAction::Stop),
        (CanvasState::Offering, CanvasEvent::Selected(label)) => {
            if !menu.offers(label) {
                (CanvasState::Released, CanvasAction::Fail(ProtocolError::UnofferedLabel))
            } else {
                match label.request() {
                    Some(kind) => (CanvasState::Receiving(label), CanvasAction::Receive(kind)),
                    None => {
                        let query = match label {
                            CanvasOps::FromLayout => SurfaceQuery::GetData,
                            CanvasOps::FromScript => SurfaceQuery::GetPixels,
                            _ => SurfaceQuery::GetTransform,
                        };
                        (CanvasState::Answering(label), CanvasAction::Ask(query))
                    },
                }
            }
        },
        (_, CanvasEvent::Selected(_)) => (
            CanvasState::Released,
            CanvasAction::Fail(ProtocolError::NotAtMenu),
        ),
        (CanvasState::Receiving(label), CanvasEvent::Received(payload)) => {
            match label.request() {
                Some(kind) => if kind == payload.kind() {
                    receive(label, payload)
                } else {
                    (CanvasState::Offering, CanvasAction::Abort)
                },
                None => (CanvasState::Offering, CanvasAction::Abort),
            }
        },
        (CanvasState::Answering(label), CanvasEvent::Answered(answer)) => {
            match reply(label, answer) {
                Some(reply) => (CanvasState::Offering, CanvasAction::Send(reply)),
                None => (CanvasState::Released, CanvasAction::Fail(ProtocolError::OutOfOrder)),
            }
        },
        (CanvasState::Offering, _) => (
            CanvasState::Released,
            CanvasAction::Fail(ProtocolError::NothingSelected),
        ),
        (_, _) => (CanvasState::Released, CanvasAction::Fail(ProtocolError::OutOfOrder)),
    }
}

impl ReplyView {
    /// The kind of the value.
    pub open spec fn kind(self) -> ValueKind {
        match self {
            ReplyView::Transform(_) => ValueKind::Transform,
            ReplyView::Pixels(_) => ValueKind::Pixels,
            ReplyView::IsPointInPath(_) => ValueKind::Verdict,
            ReplyView::LayoutImage(_) => ValueKind::LayoutImage,
            ReplyView::ScriptImage(_) => ValueKind::ScriptImage,
        }
    }
}

/// The label under which the actor is at work, if it is.
pub open spec fn label_of(state: CanvasState) -> Option<CanvasOps> {
    match state {
        CanvasState::Receiving(label) => Some(label),
        CanvasState::Answering(label) => Some(label),
        _ => None,
    }
}

/// Whether `state` is one that the actor can reach: it waits for a value
/// only under a label that receives one, and for an answer only under a
/// label that sends a reply.
pub open spec fn reachable(state: CanvasState) -> bool {
    match state {
        CanvasState::Receiving(label) => label.request() is Some,
        CanvasState::Answering(label) => label.reply() is Some,
        _ => true,
    }
}

/// The actor takes the steps of the selected label, each in its turn and
/// none twice: it waits for a value only as the first step of a label that
/// receives one; it sends a reply only as the last step of a label that
/// sends one, and the reply is of that label's kind; it offers the menu
/// again only when no step is left.
pub proof fn lemma_actor_follows_protocol(
    menu: Set<CanvasOps>,
    state: CanvasState,
    event: CanvasEvent,
)
    requires
        reachable(state),
    ensures
        reachable(step(menu, state, event).0),
        match step(menu, state, event).1 {
            CanvasActionView::Receive(kind) => {
                &&& state == CanvasState::Offering
                &&& step(menu, state, event).0 matches CanvasState::Receiving(label)
                &&& menu.contains(label)
                &&& label.steps()[0] == crate::protocol::Step::ReceiveValue(kind)
            },
            CanvasActionView::Ask(_) => {
                &&& step(menu, state, event).0 matches CanvasState::Answering(label)
                &&& label.reply() is Some
                &&& state == CanvasState::Offering ==> label.request() is None
                &&& state != CanvasState::Offering ==> state == CanvasState::Receiving(label)
            },
            CanvasActionView::Send(reply) => {
                &&& step(menu, state, event).0 == CanvasState::Offering
                &&& label_of(state) matches Some(label)
                &&& label.reply() == Some(reply.kind())
            },
            CanvasActionView::Perform(_) => {
                &&& step(menu, state, event).0 == CanvasState::Offering
                &&& state matches CanvasState::Receiving(label)
                &&& label.reply() is None
            },
            CanvasActionView::Abort => {
                &&& step(menu, state, event).0 == CanvasState::Offering
                &&& state is Receiving
            },
            CanvasActionView::Fail(_) => step(menu, state, event).0 == CanvasState::Released,
            CanvasActionView::Stop => step(menu, state, event).0 == CanvasState::Released,
        },
{
}

/// The state that the events of `events` lead to from `state`, one after
/// the other, and what the actor does on the way.
pub open spec fn run(menu: Set<CanvasOps>, state: CanvasState, events: Seq<CanvasEvent>) -> (
    CanvasState,
    Seq<CanvasActionView>,
)
    decreases events.len(),
{
    if events.len() == 0 {
        (state, seq![])
    } else {
        let before = run(menu, state, events.drop_last());
        let last = step(menu, before.0, events.last());
        (last.0, before.1.push(last.1))
    }
}

/// The operations that the surface performs for `actions`, in order.
pub open spec fn performed(actions: Seq<CanvasActionView>) -> Seq<SurfaceCall>
    decreases actions.len(),
{
    if actions.len() == 0 {
        seq![]
    } else {
        performed(actions.drop_last()) + match actions.last() {
            CanvasActionView::Perform(calls) => calls,
            _ => seq![],
        }
    }
}

/// What a surface has become after `calls`, for a surface that starts as
/// `start` and that each operation changes as `apply` tells.
pub open spec fn surface_after<S>(
    apply: spec_fn(S, SurfaceCall) -> S,
    start: S,
    calls: Seq<SurfaceCall>,
) -> S
    decreases calls.len(),
{
    if calls.len() == 0 {
        start
    } else {
        apply(surface_after(apply, start, calls.drop_last()), calls.last())
    }
}

/// What happens when `messages` are sent one by one: for each, the label
/// for one command is selected and the command sent.
pub open spec fn sent_singly(messages: Seq<CanvasMessage>) -> Seq<CanvasEvent>
    decreases messages.len(),
{
    if messages.len() == 0 {
        seq![]
    } else {
        sent_singly(messages.drop_last()) + seq![
            CanvasEvent::Selected(CanvasOps::Message),
            CanvasEvent::Received(Payload::Message(messages.last())),
        ]
    }
}

/// What happens when `messages` are sent as one batch.
pub open spec fn sent_as_batch(messages: Vec<CanvasMessage>) -> Seq<CanvasEvent> {
    seq![
        CanvasEvent::Selected(CanvasOps::Messages),
        CanvasEvent::Received(Payload::Messages(messages)),
    ]
}

/// Commands sent one by one leave the actor offering its menu, and the
/// surface has performed the operations of each command in turn.
pub proof fn lemma_sent_singly(menu: Set<CanvasOps>, messages: Seq<CanvasMessage>)
    requires
        menu.contains(CanvasOps::Message),
    ensures
        run(menu, CanvasState::Offering, sent_singly(messages)).0 == CanvasState::Offering,
        performed(run(menu, CanvasState::Offering, sent_singly(messages)).1) == calls_of_all(
            messages,
        ),
    decreases messages.len(),
{
    if messages.len() > 0 {
        let earlier = sent_singly(messages.drop_last());
        let selected = CanvasEvent::Selected(CanvasOps::Message);
        let received = CanvasEvent::Received(Payload::Message(messages.last()));
        lemma_sent_singly(menu, messages.drop_last());
        let events = sent_singly(messages);
        assert(events.drop_last() =~= earlier.push(selected));
        assert(events.drop_last().drop_last() =~= earlier);
        let after_earlier = run(menu, CanvasState::Offering, earlier);
        let after_selected = run(menu, CanvasState::Offering, events.drop_last());
        let after_received = run(menu, CanvasState::Offering, events);
        assert(after_selected.1.drop_last() =~= after_earlier.1);
        assert(after_received.1.drop_last() =~= after_selected.1);
        assert(performed(after_selected.1) =~= performed(after_earlier.1));
    }
}

/// Batching changes nothing but the number of round trips: whether a
/// sequence of commands, of any length, is sent one command at a time or
/// as one batch, the actor ends up offering its menu and the surface has
/// performed the same operations in the same order, so that it ends up the
/// same, whatever it was at the start and whatever each operation does to
/// it.
pub proof fn lemma_batch_equals_singles<S>(
    menu: Set<CanvasOps>,
    messages: Vec<CanvasMessage>,
    apply: spec_fn(S, SurfaceCall) -> S,
    start: S,
)
    requires
        menu.contains(CanvasOps::Message),
        menu.contains(CanvasOps::Messages),
    ensures
        run(menu, CanvasState::Offering, sent_singly(messages@)).0 == run(
            menu,
            CanvasState::Offering,
            sent_as_batch(messages),
        ).0,
        performed(run(menu, CanvasState::Offering, sent_singly(messages@)).1) == performed(
            run(menu, CanvasState::Offering, sent_as_batch(messages)).1,
        ),
        surface_after(
            apply,
            start,
            performed(run(menu, CanvasState::Offering, sent_singly(messages@)).1),
        ) == surface_after(
            apply,
            start,
            performed(run(menu, CanvasState::Offering, sent_as_batch(messages)).1),
        ),
{
    lemma_sent_singly(menu, messages@);
    let events = sent_as_batch(messages);
    let selected = seq![CanvasEvent::Selected(CanvasOps::Messages)];
    assert(events.drop_last() =~= selected);
    assert(selected.drop_last() =~= Seq::<CanvasEvent>::empty());
    let at_start = run(menu, CanvasState::Offering, Seq::<CanvasEvent>::empty());
    assert(at_start.0 == CanvasState::Offering && at_start.1 =~= Seq::<CanvasActionView>::empty());
    let after_selected = run(menu, CanvasState::Offering, selected);
    let after_received = run(menu, CanvasState::Offering, events);
    assert(after_selected.0 == CanvasState::Receiving(CanvasOps::Messages));
    assert(after_received.1.drop_last() =~= after_selected.1);
    assert(after_selected.1.drop_last() =~= Seq::<CanvasActionView>::empty());
    assert(performed(Seq::<CanvasActionView>::empty()) =~= Seq::<SurfaceCall>::empty());
    assert(performed(after_selected.1) =~= Seq::<SurfaceCall>::empty());
    assert(performed(after_received.1) =~= calls_of_all(messages@));
}

} // verus!
