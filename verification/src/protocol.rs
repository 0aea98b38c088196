//! The canvas protocol: the menu of operations that a canvas offers, and
//! for each the values that cross the channel, in order.
//!
//! A conversation starts at the menu. The caller selects one label, which
//! commits both sides to that label's steps; when the last step is done the
//! channel is released and the menu is offered again.

use vstd::prelude::*;

verus! {

/// The labels of the menu: one for each operation of a canvas.
#[derive(Clone, Copy, Debug, PartialEq, Eq, Structural)]
pub enum CanvasOps {
    /// Carry out one command.
    Message,
    /// Carry out a batch of commands, in order.
    Messages,
    /// Tell the current transform.
    GetTransform,
    /// Read the pixels of a rectangle.
    GetImageData,
    /// Write pixels into a rectangle.
    PutImageData,
    /// Tell whether a point lies inside the current path.
    IsPointInPath,
    /// Hand the contents to the rendering pipeline.
    FromLayout,
    /// Hand all the pixels to script.
    FromScript,
    /// Start afresh with a cleared surface of a new size.
    Recreate,
}

/// The kinds of value that cross a canvas channel.
#[derive(Clone, Copy, Debug, PartialEq, Eq, Structural)]
pub enum ValueKind {
    /// One command.
    Command,
    /// A sequence of commands.
    Commands,
    /// A transform matrix.
    Transform,
    /// A rectangle to read and the size of the canvas it is read from.
    Region,
    /// A rectangle and the pixels to write into it.
    Patch,
    /// The pixels of a rectangle.
    Pixels,
    /// A point and a fill rule.
    Point,
    /// A yes or a no.
    Verdict,
    /// A handle for the rendering pipeline, or none.
    LayoutImage,
    /// The pixels of the whole surface.
    ScriptImage,
    /// The size of a surface.
    Size,
}

/// One step of a conversation, as the actor sees it.
#[derive(Clone, Copy, Debug, PartialEq, Eq, Structural)]
pub enum Step {
    /// The actor receives a value from the caller.
    ReceiveValue(ValueKind),
    /// The actor sends a value to the caller.
    SendValue(ValueKind),
}

/// What a channel refuses.
#[derive(Clone, Copy, Debug, PartialEq, Eq, Structural)]
pub enum ProtocolError {
    /// The label selected is not on the menu.
    UnofferedLabel,
    /// A label was selected while an earlier selection was still running.
    NotAtMenu,
    /// A value was sent or awaited, or the channel released, before any
    /// label was selected.
    NothingSelected,
    /// The value sent or awaited is not the one that comes next.
    OutOfOrder,
    /// The channel was released with steps still to go.
    Unfinished,
    /// A channel was used or handed back that had not been acquired.
    NotAcquired,
    /// The shared channel is taken, or the caller holds a channel already.
    Busy,
}

impl CanvasOps {
    /// The steps that follow the selection of this label, in order. After
    /// the last one the channel is released.
    pub open spec fn steps(self) -> Seq<Step> {
        match self {
            CanvasOps::Message => seq![Step::ReceiveValue(ValueKind::Command)],
            CanvasOps::Messages => seq![Step::ReceiveValue(ValueKind::Commands)],
            CanvasOps::GetTransform => seq![Step::SendValue(ValueKind::Transform)],
            CanvasOps::GetImageData => seq![
                Step::ReceiveValue(ValueKind::Region),
                Step::SendValue(ValueKind::Pixels),
            ],
            CanvasOps::PutImageData => seq![Step::ReceiveValue(ValueKind::Patch)],
            CanvasOps::IsPointInPath => seq![
                Step::ReceiveValue(ValueKind::Point),
                Step::SendValue(ValueKind::Verdict),
            ],
            CanvasOps::FromLayout => seq![Step::SendValue(ValueKind::LayoutImage)],
            CanvasOps::FromScript => seq![Step::SendValue(ValueKind::ScriptImage)],
            CanvasOps::Recreate => seq![Step::ReceiveValue(ValueKind::Size)],
        }
    }

    /// The value that the actor receives first under this label, if it
    /// receives any.
    pub open spec fn spec_request(self) -> Option<ValueKind> {
        match self.steps()[0] {
            Step::ReceiveValue(kind) => Some(kind),
            Step::SendValue(_) => None,
        }
    }

    /// The value that the actor sends back under this label, if it sends
    /// any.
    pub open spec fn spec_reply(self) -> Option<ValueKind> {
        match self.steps().last() {
            Step::ReceiveValue(_) => None,
            Step::SendValue(kind) => Some(kind),
        }
    }

    /// The value that the actor receives first under this label, if it
    /// receives any.
    #[verifier::when_used_as_spec(spec_request)]
    pub fn request(self) -> (kind: Option<ValueKind>)
        ensures
            kind == self.spec_request(),
    {
        match self {
            CanvasOps::Message => Some(ValueKind::Command),
            CanvasOps::Messages => Some(ValueKind::Commands),
            CanvasOps::GetImageData => Some(ValueKind::Region),
            CanvasOps::PutImageData => Some(ValueKind::Patch),
            CanvasOps::IsPointInPath => Some(ValueKind::Point),
            CanvasOps::Recreate => Some(ValueKind::Size),
            CanvasOps::GetTransform | CanvasOps::FromLayout | CanvasOps::FromScript => None,
        }
    }

    /// The value that the actor sends back under this label, if it sends
    /// any.
    #[verifier::when_used_as_spec(spec_reply)]
    pub fn reply(self) -> (kind: Option<ValueKind>)
        ensures
            kind == self.spec_reply(),
    {
        match self {
            CanvasOps::GetTransform => Some(ValueKind::Transform),
            CanvasOps::GetImageData => Some(ValueKind::Pixels),
            CanvasOps::IsPointInPath => Some(ValueKind::Verdict),
            CanvasOps::FromLayout => Some(ValueKind::LayoutImage),
            CanvasOps::FromScript => Some(ValueKind::ScriptImage),
            CanvasOps::Message
            | CanvasOps::Messages
            | CanvasOps::PutImageData
            | CanvasOps::Recreate => None,
        }
    }

    /// The step at `index` among this label's steps, if there is one.
    pub fn step_at(self, index: usize) -> (step: Option<Step>)
        ensures
            step == if index < self.steps().len() {
                Some(self.steps()[index as int])
            } else {
                None
            },
    {
        match (self.request(), self.reply()) {
            (Some(asked), Some(told)) => if index == 0 {
                Some(Step::ReceiveValue(asked))
            } else if index == 1 {
                Some(Step::SendValue(told))
            } else {
                None
            },
            (Some(asked), None) => if index == 0 {
                Some(Step::ReceiveValue(asked))
            } else {
                None
            },
            (None, Some(told)) => if index == 0 {
                Some(Step::SendValue(told))
            } else {
                None
            },
            (None, None) => None,
        }
    }

    /// Every label's steps are its request, if it has one, and then its
    /// reply, if it has one: at least one of the two, and nothing else.
    pub proof fn lemma_steps_are_request_then_reply(self)
        ensures
            self.steps() == (match self.spec_request() {
                Some(kind) => seq![Step::ReceiveValue(kind)],
                None => seq![],
            }) + (match self.spec_reply() {
                Some(kind) => seq![Step::SendValue(kind)],
                None => seq![],
            }),
            self.spec_request() is Some || self.spec_reply() is Some,
    {
        assert(self.steps() =~= (match self.spec_request() {
            Some(kind) => seq![Step::ReceiveValue(kind)],
            None => seq![],
        }) + (match self.spec_reply() {
            Some(kind) => seq![Step::SendValue(kind)],
            None => seq![],
        }));
    }
}

} // verus!
