//! The caller's side of a conversation with a canvas.
//!
//! A caller reaches a canvas through its shared channel: it acquires the
//! channel, selects one label, takes its part in each step of that label
//! and releases the channel. This module names those operations, puts
//! together the conversations that need no decision on the way, and
//! carries operations out on the channels.

use crate::actor::Payload;
use crate::channel::{ChannelState, LinearChannel, SharedChannel};
use crate::message::CanvasMessage;
use crate::protocol::{CanvasOps, ProtocolError, Step, ValueKind};
use vstd::prelude::*;

verus! {

/// One operation of a caller on the channel of a canvas.
#[derive(Debug, PartialEq)]
pub enum ChannelOp {
    /// Acquire the shared channel.
    Acquire,
    /// Select a label of the menu.
    Select(CanvasOps),
    /// Send a value to the canvas.
    SendValue(Payload),
    /// Wait for a value of this kind from the canvas.
    ReceiveValue(ValueKind),
    /// Release the shared channel.
    Release,
}

/// Whether `op` is the caller's part in the step `step` of a canvas: the
/// caller sends what the canvas receives and waits for what the canvas
/// sends.
pub open spec fn mirrors(op: ChannelOp, step: Step) -> bool {
    match step {
        Step::ReceiveValue(kind) => op matches ChannelOp::SendValue(payload) && payload.kind()
            == kind,
        Step::SendValue(kind) => op == ChannelOp::ReceiveValue(kind),
    }
}

/// Whether `ops` is one whole conversation under `label`: the channel is
/// acquired, the label selected, each of its steps taken in order, none
/// left out and none added, and the channel released.
pub open spec fn converses(ops: Seq<ChannelOp>, label: CanvasOps) -> bool {
    &&& ops.len() == label.steps().len() + 3
    &&& ops[0] == ChannelOp::Acquire
    &&& ops[1] == ChannelOp::Select(label)
    &&& forall|i: int|
        0 <= i < label.steps().len() ==> mirrors(#[trigger] ops[2 + i], label.steps()[i])
    &&& ops.last() == ChannelOp::Release
}

/// How many channels are held after `ops`: those acquired and not yet
/// released.
pub open spec fn held(ops: Seq<ChannelOp>) -> int
    decreases ops.len(),
{
    if ops.len() == 0 {
        0
    } else {
        held(ops.drop_last()) + match ops.last() {
            ChannelOp::Acquire => 1int,
            ChannelOp::Release => -1int,
            _ => 0int,
        }
    }
}

/// The whole conversation under `label`, in which `payload` is what the
/// caller sends.
pub open spec fn conversation(label: CanvasOps, payload: Option<Payload>) -> Seq<ChannelOp> {
    seq![ChannelOp::Acquire, ChannelOp::Select(label)] + (match payload {
        Some(payload) => seq![ChannelOp::SendValue(payload)],
        None => seq![],
    }) + (match label.reply() {
        Some(kind) => seq![ChannelOp::ReceiveValue(kind)],
        None => seq![],
    }) + seq![ChannelOp::Release]
}

/// Puts together the whole conversation under `label`: the channel is
/// acquired, the label selected, `payload` sent where the label receives a
/// value, the reply awaited where it sends one, and the channel released.
/// The payload must be of the kind that the label receives, and there must
/// be none where it receives nothing; else there is no conversation.
pub fn converse(label: CanvasOps, payload: Option<Payload>) -> (ops: Option<Vec<ChannelOp>>)
    ensures
        match ops {
            Some(ops) => {
                &&& label.request() == match payload {
                    Some(payload) => Some(payload.kind()),
                    None => None,
                }
                &&& ops@ == conversation(label, payload)
                &&& converses(ops@, label)
            },
            None => label.request() != match payload {
                Some(payload) => Some(payload.kind()),
                None => None,
            },
        },
{
    let mut ops: Vec<ChannelOp> = Vec::new();
    ops.push(ChannelOp::Acquire);
    ops.push(ChannelOp::Select(label));
    match (label.request(), payload) {
        (Some(kind), Some(payload)) => {
            if kind != payload.kind() {
                return None;
            }
            ops.push(ChannelOp::SendValue(payload));
        },
        (None, None) => {},
        _ => {
            return None;
        },
    }
    if let Some(kind) = label.reply() {
        ops.push(ChannelOp::ReceiveValue(kind));
    }
    ops.push(ChannelOp::Release);
    proof {
        assert(ops@ =~= conversation(label, payload));
        lemma_conversation_converses(label, payload);
    }
    Some(ops)
}

/// A conversation in which the caller sends what the label receives, and
/// nothing where it receives nothing, keeps to the protocol.
pub proof fn lemma_conversation_converses(label: CanvasOps, payload: Option<Payload>)
    requires
        label.request() == match payload {
            Some(payload) => Some(payload.kind()),
            None => None,
        },
    ensures
        converses(conversation(label, payload), label),
{
    let ops = conversation(label, payload);
    label.lemma_steps_are_request_then_reply();
    assert forall|i: int| 0 <= i < label.steps().len() implies mirrors(
        #[trigger] ops[2 + i],
        label.steps()[i],
    ) by {
        if i == 0 {
            assert(mirrors(ops[2 + 0int], label.steps()[0]));
        } else {
            assert(mirrors(ops[2 + 1int], label.steps()[1]));
        }
    }
}

/// Puts together the conversation that sends `messages` to a canvas as one
/// batch: the channel is acquired, the label for a batch selected, the
/// batch sent and the channel released.
pub fn send_canvas_messages(messages: Vec<CanvasMessage>) -> (ops: Vec<ChannelOp>)
    ensures
        ops@ == seq![
            ChannelOp::Acquire,
            ChannelOp::Select(CanvasOps::Messages),
            ChannelOp::SendValue(Payload::Messages(messages)),
            ChannelOp::Release,
        ],
        ops@ == conversation(CanvasOps::Messages, Some(Payload::Messages(messages))),
        converses(ops@, CanvasOps::Messages),
{
    let mut ops: Vec<ChannelOp> = Vec::new();
    ops.push(ChannelOp::Acquire);
    ops.push(ChannelOp::Select(CanvasOps::Messages));
    ops.push(ChannelOp::SendValue(Payload::Messages(messages)));
    ops.push(ChannelOp::Release);
    proof {
        assert(ops@ =~= conversation(CanvasOps::Messages, Some(Payload::Messages(messages))));
        lemma_conversation_converses(CanvasOps::Messages, Some(Payload::Messages(messages)));
    }
    ops
}

/// How a caller and the shared channel of a canvas stand to each other.
pub struct Link {
    /// Whether nobody holds the linear channel of the canvas.
    pub free: bool,
    /// Where the conversation of the caller stands, if the caller holds a
    /// linear channel.
    pub held: Option<ChannelState>,
}

impl Link {
    /// The link after the caller has taken `step` on the channel it holds.
    pub open spec fn stepped(self, step: Step) -> Result<Link, ProtocolError> {
        match self.held {
            None => Err(ProtocolError::NotAcquired),
            Some(ChannelState::AtMenu) => Err(ProtocolError::NothingSelected),
            Some(ChannelState::Running { label, done }) => if done < label.steps().len()
                && label.steps()[done as int] == step {
                Ok(Link { held: Some(ChannelState::Running { label, done: done + 1 }), ..self })
            } else {
                Err(ProtocolError::OutOfOrder)
            },
        }
    }

    /// The link after `op`, on a canvas that offers `menu`; or why the
    /// operation is refused.
    ///
    /// A caller acquires only a channel that is free, and only while it
    /// holds none. It selects, sends and waits only on the channel it holds
    /// and only as the protocol has it. It releases only when the
    /// selection has run to its end.
    pub open spec fn after(self, menu: Set<CanvasOps>, op: ChannelOp) -> Result<
        Link,
        ProtocolError,
    > {
        match op {
            ChannelOp::Acquire => if self.held is Some || !self.free {
                Err(ProtocolError::Busy)
            } else {
                Ok(Link { free: false, held: Some(ChannelState::AtMenu) })
            },
            ChannelOp::Select(label) => match self.held {
                None => Err(ProtocolError::NotAcquired),
                Some(ChannelState::AtMenu) => if menu.contains(label) {
                    Ok(Link { held: Some(ChannelState::Running { label, done: 0 }), ..self })
                } else {
                    Err(ProtocolError::UnofferedLabel)
                },
                Some(_) => Err(ProtocolError::NotAtMenu),
            },
            ChannelOp::SendValue(payload) => self.stepped(Step::ReceiveValue(payload.kind())),
            ChannelOp::ReceiveValue(kind) => self.stepped(Step::SendValue(kind)),
            ChannelOp::Release => match self.held {
                None => Err(ProtocolError::NotAcquired),
                Some(state) => if self.free {
                    Err(ProtocolError::NotAcquired)
                } else {
                    match state {
                        ChannelState::AtMenu => Err(ProtocolError::NothingSelected),
                        ChannelState::Running { label, done } => if done == label.steps().len() {
                            Ok(Link { free: true, held: None })
                        } else {
                            Err(ProtocolError::Unfinished)
                        },
                    }
                },
            },
        }
    }

    /// The link after `ops`, one after the other, up to the first that is
    /// refused.
    pub open spec fn after_all(self, menu: Set<CanvasOps>, ops: Seq<ChannelOp>) -> Result<
        Link,
        ProtocolError,
    >
        decreases ops.len(),
    {
        if ops.len() == 0 {
            Ok(self)
        } else {
            match self.after(menu, ops.first()) {
                Ok(next) => next.after_all(menu, ops.drop_first()),
                Err(error) => Err(error),
            }
        }
    }
}

/// A caller of canvases. It holds at most one linear channel at a time.
#[derive(Debug)]
pub struct Caller {
    held: Option<LinearChannel>,
}

impl Caller {
    /// Where the conversation of the caller stands, if it holds a channel.
    pub closed spec fn holding(&self) -> Option<ChannelState> {
        match self.held {
            Some(channel) => Some(channel.state()),
            None => None,
        }
    }

    /// The menu of the channel that the caller holds.
    pub closed spec fn menu(&self) -> Set<CanvasOps> {
        self.held->0.menu()
    }

    /// A caller that holds no channel.
    pub fn new() -> (caller: Caller)
        ensures
            caller.holding() is None,
    {
        Caller { held: None }
    }

    /// Carries out `op` on the canvas behind `shared`: on the shared
    /// channel where the operation acquires or releases, and on the linear
    /// channel that the caller holds where it selects, sends or waits. An
    /// operation that is refused costs the caller the channel it held.
    pub fn perform(&mut self, shared: &mut SharedChannel, op: &ChannelOp) -> (result: Result<
        (),
        ProtocolError,
    >)
        ensures
            ({
                let link = Link { free: old(shared).is_free(), held: old(self).holding() };
                let menu = if *op == ChannelOp::Acquire {
                    old(shared).menu()
                } else {
                    old(self).menu()
                };
                match link.after(menu, *op) {
                    Ok(next) => {
                        &&& result is Ok
                        &&& final(shared).is_free() == next.free
                        &&& final(self).holding() == next.held
                        &&& next.held is Some ==> final(self).menu() == menu
                        &&& next.free ==> final(shared).menu() == if *op == ChannelOp::Release {
                            menu
                        } else {
                            old(shared).menu()
                        }
                    },
                    Err(error) => {
                        &&& result == Err::<(), ProtocolError>(error)
                        &&& final(self).holding() is None
                        &&& final(shared).is_free() == old(shared).is_free()
                        &&& old(shared).is_free() ==> final(shared).menu() == old(shared).menu()
                    },
                }
            }),
    {
        let mut held = None;
        core::mem::swap(&mut self.held, &mut held);
        let outcome = match op {
            ChannelOp::Acquire => match held {
                Some(_) => Err(ProtocolError::Busy),
                None => match shared.acquire() {
                    Some(channel) => Ok(Some(channel)),
                    None => Err(ProtocolError::Busy),
                },
            },
            ChannelOp::Select(label) => match held {
                Some(channel) => match channel.select(*label) {
                    Ok(channel) => Ok(Some(channel)),
                    Err(error) => Err(error),
                },
                None => Err(ProtocolError::NotAcquired),
            },
            ChannelOp::SendValue(payload) => match held {
                Some(channel) => match channel.send_value_to(payload.kind()) {
                    Ok(channel) => Ok(Some(channel)),
                    Err(error) => Err(error),
                },
                None => Err(ProtocolError::NotAcquired),
            },
            ChannelOp::ReceiveValue(kind) => match held {
                Some(channel) => match channel.receive_value_from(*kind) {
                    Ok(channel) => Ok(Some(channel)),
                    Err(error) => Err(error),
                },
                None => Err(ProtocolError::NotAcquired),
            },
            ChannelOp::Release => match held {
                Some(channel) => match shared.release(channel) {
                    Ok(()) => Ok(None),
                    Err(error) => Err(error),
                },
                None => Err(ProtocolError::NotAcquired),
            },
        };
        match outcome {
            Ok(held) => {
                self.held = held;
                Ok(())
            },
            Err(error) => Err(error),
        }
    }
}

/// The protocol lets every whole conversation through: a caller that holds
/// nothing, on a canvas that is free and offers the label, gets through
/// the conversation under that label without a refusal, and leaves the
/// canvas free and itself holding nothing.
pub proof fn lemma_conversation_is_accepted(
    menu: Set<CanvasOps>,
    label: CanvasOps,
    payload: Option<Payload>,
)
    requires
        menu.contains(label),
        label.request() == match payload {
            Some(payload) => Some(payload.kind()),
            None => None,
        },
    ensures
        (Link { free: true, held: None }).after_all(menu, conversation(label, payload)) == Ok::<
            Link,
            ProtocolError,
        >(Link { free: true, held: None }),
{
    let ops = conversation(label, payload);
    let start = Link { free: true, held: None };
    label.lemma_steps_are_request_then_reply();
    let acquired = start.after(menu, ops[0])->Ok_0;
    let selected = acquired.after(menu, ops[1])->Ok_0;
    let rest = ops.drop_first().drop_first();
    assert(selected.held == Some(ChannelState::Running { label, done: 0 }));
    assert(rest.len() == label.steps().len() + 1);
    if label.steps().len() == 1 {
        let taken = selected.after(menu, rest[0])->Ok_0;
        assert(selected.after(menu, rest[0]) is Ok);
        let last = rest.drop_first();
        assert(last.first() == ChannelOp::Release);
        assert(taken.after(menu, last.first()) == Ok::<Link, ProtocolError>(start));
        assert(last.drop_first().len() == 0);
        assert(start.after_all(menu, last.drop_first()) == Ok::<Link, ProtocolError>(start));
        assert(taken.after_all(menu, last) == Ok::<Link, ProtocolError>(start));
        assert(selected.after_all(menu, rest) == Ok::<Link, ProtocolError>(start));
    } else {
        let sent = selected.after(menu, rest[0])->Ok_0;
        assert(selected.after(menu, rest[0]) is Ok);
        let after_request = rest.drop_first();
        let received = sent.after(menu, after_request.first())->Ok_0;
        assert(sent.after(menu, after_request.first()) is Ok);
        let last = after_request.drop_first();
        assert(last.first() == ChannelOp::Release);
        assert(received.after(menu, last.first()) == Ok::<Link, ProtocolError>(start));
        assert(last.drop_first().len() == 0);
        assert(start.after_all(menu, last.drop_first()) == Ok::<Link, ProtocolError>(start));
        assert(received.after_all(menu, last) == Ok::<Link, ProtocolError>(start));
        assert(sent.after_all(menu, after_request) == Ok::<Link, ProtocolError>(start));
        assert(selected.after_all(menu, rest) == Ok::<Link, ProtocolError>(start));
    }
    assert(acquired.after_all(menu, ops.drop_first()) == Ok::<Link, ProtocolError>(start));
}

} // verus!
