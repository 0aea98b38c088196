//! Channels: the linear channel of one conversation, and the shared
//! channel through which many callers reach one canvas in turn.
//!
//! A linear channel is used up by every operation on it. The operation
//! takes the channel and, where the protocol allows it, hands back the
//! channel for the step that follows; where it does not, the channel is
//! gone, and with it the conversation.

use crate::protocol::{CanvasOps, ProtocolError, Step, ValueKind};
use vstd::prelude::*;

verus! {

/// The labels that one party offers to the other.
#[derive(Debug)]
pub struct Menu {
    offered: Vec<CanvasOps>,
}

impl View for Menu {
    type V = Set<CanvasOps>;

    closed spec fn view(&self) -> Set<CanvasOps> {
        self.offered@.to_set()
    }
}

impl Menu {
    /// A menu of the labels in `offered`.
    pub fn new(offered: Vec<CanvasOps>) -> (menu: Menu)
        ensures
            menu@ == offered@.to_set(),
    {
        Menu { offered }
    }

    /// The menu of every operation of a canvas.
    pub fn full() -> (menu: Menu)
        ensures
            menu@ == Set::<CanvasOps>::full(),
    {
        let mut offered: Vec<CanvasOps> = Vec::new();
        offered.push(CanvasOps::Message);
        offered.push(CanvasOps::Messages);
        offered.push(CanvasOps::GetTransform);
        offered.push(CanvasOps::GetImageData);
        offered.push(CanvasOps::PutImageData);
        offered.push(CanvasOps::IsPointInPath);
        offered.push(CanvasOps::FromLayout);
        offered.push(CanvasOps::FromScript);
        offered.push(CanvasOps::Recreate);
        proof {
            assert forall|label: CanvasOps| offered@.contains(label) by {
                let index: int = match label {
                    CanvasOps::Message => 0,
                    CanvasOps::Messages => 1,
                    CanvasOps::GetTransform => 2,
                    CanvasOps::GetImageData => 3,
                    CanvasOps::PutImageData => 4,
                    CanvasOps::IsPointInPath => 5,
                    CanvasOps::FromLayout => 6,
                    CanvasOps::FromScript => 7,
                    CanvasOps::Recreate => 8,
                };
                assert(offered@[index] == label);
            }
            assert(offered@.to_set() =~= Set::<CanvasOps>::full());
        }
        Menu { offered }
    }

    /// Whether `label` is on the menu.
    pub fn offers(&self, label: CanvasOps) -> (offered: bool)
        ensures
            offered == self@.contains(label),
    {
        let mut i: usize = 0;
        while i < self.offered.len()
            invariant
                i <= self.offered.len(),
                forall|k: int| 0 <= k < i ==> self.offered@[k] != label,
            decreases self.offered.len() - i,
        {
            if self.offered[i] == label {
                return true;
            }
            i += 1;
        }
        false
    }
}

/// Where a conversation stands.
pub enum ChannelState {
    /// At the menu: no label is selected.
    AtMenu,
    /// `label` has been selected and the first `done` of its steps are
    /// behind.
    Running { label: CanvasOps, done: nat },
}

/// The channel of one conversation, as its caller holds it.
#[derive(Debug)]
pub struct LinearChannel {
    menu: Menu,
    selected: Option<CanvasOps>,
    done: usize,
}

impl LinearChannel {
    #[verifier::type_invariant]
    spec fn well_formed(self) -> bool {
        match self.selected {
            Some(label) => self.done <= label.steps().len(),
            None => self.done == 0,
        }
    }

    /// The labels that the other party offers on this channel.
    pub closed spec fn menu(self) -> Set<CanvasOps> {
        self.menu@
    }

    /// Where the conversation stands.
    pub closed spec fn state(self) -> ChannelState {
        match self.selected {
            Some(label) => ChannelState::Running { label, done: self.done as nat },
            None => ChannelState::AtMenu,
        }
    }

    /// The step that comes next, if a label is selected and has steps left.
    pub open spec fn next_step(self) -> Option<Step> {
        match self.state() {
            ChannelState::Running { label, done } => if done < label.steps().len() {
                Some(label.steps()[done as int])
            } else {
                None
            },
            ChannelState::AtMenu => None,
        }
    }

    /// Whether a label is selected and all its steps are behind.
    pub open spec fn finished(self) -> bool {
        self.state() matches ChannelState::Running { label, done } && done == label.steps().len()
    }

    /// A channel at the menu `menu`.
    pub fn new(menu: Menu) -> (channel: LinearChannel)
        ensures
            channel.menu() == menu@,
            channel.state() == ChannelState::AtMenu,
    {
        LinearChannel { menu, selected: None, done: 0 }
    }

    /// Selects `label`. The channel must be at the menu and the menu must
    /// offer the label.
    pub fn select(self, label: CanvasOps) -> (result: Result<LinearChannel, ProtocolError>)
        ensures
            match result {
                Ok(next) => {
                    &&& self.state() == ChannelState::AtMenu
                    &&& self.menu().contains(label)
                    &&& next.menu() == self.menu()
                    &&& next.state() == ChannelState::Running { label, done: 0 }
                },
                Err(error) => error == if self.state() != ChannelState::AtMenu {
                    ProtocolError::NotAtMenu
                } else {
                    ProtocolError::UnofferedLabel
                } && !(self.state() == ChannelState::AtMenu && self.menu().contains(label)),
            },
    {
        if self.selected.is_some() {
            return Err(ProtocolError::NotAtMenu);
        }
        if !self.menu.offers(label) {
            return Err(ProtocolError::UnofferedLabel);
        }
        Ok(LinearChannel { menu: self.menu, selected: Some(label), done: 0 })
    }

    /// Takes the step `step`, which must be the one that comes next.
    fn advance(self, step: Step) -> (result: Result<LinearChannel, ProtocolError>)
        ensures
            match result {
                Ok(next) => {
                    &&& self.next_step() == Some(step)
                    &&& next.menu() == self.menu()
                    &&& self.state() matches ChannelState::Running { label, done }
                    &&& next.state() == ChannelState::Running { label, done: done + 1 }
                },
                Err(error) => error == if self.state() == ChannelState::AtMenu {
                    ProtocolError::NothingSelected
                } else {
                    ProtocolError::OutOfOrder
                } && self.next_step() != Some(step),
            },
    {
        proof {
            use_type_invariant(&self);
        }
        match self.selected {
            None => Err(ProtocolError::NothingSelected),
            Some(label) => match label.step_at(self.done) {
                Some(expected) => if expected == step {
                    Ok(
                        LinearChannel {
                            menu: self.menu,
                            selected: self.selected,
                            done: self.done + 1,
                        },
                    )
                } else {
                    Err(ProtocolError::OutOfOrder)
                },
                None => Err(ProtocolError::OutOfOrder),
            },
        }
    }

    /// Records that the caller sends a value of kind `kind`, which the
    /// actor must be about to receive.
    pub fn send_value_to(self, kind: ValueKind) -> (result: Result<LinearChannel, ProtocolError>)
        ensures
            match result {
                Ok(next) => {
                    &&& self.next_step() == Some(Step::ReceiveValue(kind))
                    &&& next.menu() == self.menu()
                    &&& self.state() matches ChannelState::Running { label, done }
                    &&& next.state() == ChannelState::Running { label, done: done + 1 }
                },
                Err(error) => error == if self.state() == ChannelState::AtMenu {
                    ProtocolError::NothingSelected
                } else {
                    ProtocolError::OutOfOrder
                } && self.next_step() != Some(Step::ReceiveValue(kind)),
            },
    {
        self.advance(Step::ReceiveValue(kind))
    }

    /// Records that the caller receives a value of kind `kind`, which the
    /// actor must be about to send.
    pub fn receive_value_from(self, kind: ValueKind) -> (result: Result<
        LinearChannel,
        ProtocolError,
    >)
        ensures
            match result {
                Ok(next) => {
                    &&& self.next_step() == Some(Step::SendValue(kind))
                    &&& next.menu() == self.menu()
                    &&& self.state() matches ChannelState::Running { label, done }
                    &&& next.state() == ChannelState::Running { label, done: done + 1 }
                },
                Err(error) => error == if self.state() == ChannelState::AtMenu {
                    ProtocolError::NothingSelected
                } else {
                    ProtocolError::OutOfOrder
                } && self.next_step() != Some(Step::SendValue(kind)),
            },
    {
        self.advance(Step::SendValue(kind))
    }

    /// Ends the selection when all its steps are behind: the channel is at
    /// the menu again.
    pub fn release(self) -> (result: Result<LinearChannel, ProtocolError>)
        ensures
            match result {
                Ok(next) => {
                    &&& self.finished()
                    &&& next.menu() == self.menu()
                    &&& next.state() == ChannelState::AtMenu
                },
                Err(error) => error == if self.state() == ChannelState::AtMenu {
                    ProtocolError::NothingSelected
                } else {
                    ProtocolError::Unfinished
                } && !self.finished(),
            },
    {
        proof {
            use_type_invariant(&self);
        }
        match self.selected {
            None => Err(ProtocolError::NothingSelected),
            Some(label) => match label.step_at(self.done) {
                Some(_) => Err(ProtocolError::Unfinished),
                None => Ok(LinearChannel { menu: self.menu, selected: None, done: 0 }),
            },
        }
    }
}

/// The shared channel of a canvas: the slot in which the canvas's linear
/// channel lies while nobody talks to the canvas. To acquire is to take
/// the channel out of the slot, and to release is to put it back, so that
/// at any time at most one caller holds the channel.
///
/// Nothing here waits. A caller that finds the slot empty asks again when
/// the channel is back, and callers on several threads keep the shared
/// channel behind one lock.
#[derive(Debug)]
pub struct SharedChannel {
    slot: Option<LinearChannel>,
}

/// One request made of a shared channel.
pub enum SharedRequest {
    /// A caller asks for the linear channel.
    Acquire,
    /// A caller hands back a linear channel, which is `finished` or not.
    Release { finished: bool },
}

impl SharedRequest {
    /// Whether the request is granted by a shared channel that is free, or
    /// is not.
    pub open spec fn granted(self, free: bool) -> bool {
        match self {
            SharedRequest::Acquire => free,
            SharedRequest::Release { finished } => !free && finished,
        }
    }

    /// Whether the shared channel is free after the request.
    pub open spec fn leaves_free(self, free: bool) -> bool {
        match self {
            SharedRequest::Acquire => false,
            SharedRequest::Release { finished } => free || finished,
        }
    }
}

/// Whether a shared channel that starts out free, or not, is free after
/// the requests of `history`.
pub open spec fn free_after(free: bool, history: Seq<SharedRequest>) -> bool
    decreases history.len(),
{
    if history.len() == 0 {
        free
    } else {
        history.last().leaves_free(free_after(free, history.drop_last()))
    }
}

/// Whether request `index` of `history` is granted.
pub open spec fn granted_at(free: bool, history: Seq<SharedRequest>, index: int) -> bool {
    history[index].granted(free_after(free, history.take(index)))
}

/// A shared channel is held by one caller at a time: between any two
/// granted acquisitions lies a granted release, and a release is granted
/// only for a channel whose selection has run to its end.
pub proof fn lemma_acquisitions_alternate(
    free: bool,
    history: Seq<SharedRequest>,
    first: int,
    second: int,
)
    requires
        0 <= first < second < history.len(),
        history[first] == SharedRequest::Acquire,
        history[second] == SharedRequest::Acquire,
        granted_at(free, history, first),
        granted_at(free, history, second),
    ensures
        exists|between: int|
            first < between < second && granted_at(free, history, between)
                && history[between] == (SharedRequest::Release { finished: true }),
    decreases second - first,
{
    let before = history.take(second - 1);
    let last = history[second - 1];
    assert(history.take(second).drop_last() =~= before);
    assert(history.take(second).last() == last);
    if second - 1 == first {
        // The request just before `second` is the first acquisition
        // itself, which leaves the channel taken.
        assert(!free_after(free, history.take(second)));
    } else if last.granted(free_after(free, before)) && last == (SharedRequest::Release {
        finished: true,
    }) {
        assert(granted_at(free, history, second - 1));
    } else {
        // The request just before `second` frees nothing, so the channel
        // was free before it already: look further back.
        assert(free_after(free, before));
        lemma_still_taken(free, history, first, second - 1);
    }
}

/// After a granted acquisition the channel stays taken until a release is
/// granted.
proof fn lemma_still_taken(free: bool, history: Seq<SharedRequest>, first: int, later: int)
    requires
        0 <= first < later < history.len(),
        history[first] == SharedRequest::Acquire,
        granted_at(free, history, first),
        free_after(free, history.take(later)),
    ensures
        exists|between: int|
            first < between < later && granted_at(free, history, between)
                && history[between] == (SharedRequest::Release { finished: true }),
    decreases later - first,
{
    let before = history.take(later - 1);
    let last = history[later - 1];
    assert(history.take(later).drop_last() =~= before);
    assert(history.take(later).last() == last);
    if later - 1 == first {
        assert(!free_after(free, history.take(later)));
    } else if !free_after(free, before) {
        assert(granted_at(free, history, later - 1));
        assert(last == (SharedRequest::Release { finished: true }));
    } else {
        lemma_still_taken(free, history, first, later - 1);
    }
}

impl SharedChannel {
    #[verifier::type_invariant]
    spec fn well_formed(self) -> bool {
        self.slot matches Some(channel) ==> channel.state() == ChannelState::AtMenu
    }

    /// Whether no caller holds the linear channel.
    pub closed spec fn is_free(self) -> bool {
        self.slot is Some
    }

    /// The menu of the linear channel, while no caller holds it.
    pub closed spec fn menu(self) -> Set<CanvasOps> {
        self.slot->0.menu()
    }

    /// A shared channel to a canvas that offers `menu`, held by nobody.
    pub fn new(menu: Menu) -> (shared: SharedChannel)
        ensures
            shared.is_free(),
            shared.menu() == menu@,
    {
        SharedChannel { slot: Some(LinearChannel::new(menu)) }
    }

    /// Takes the linear channel, if nobody holds it. The channel is at the
    /// menu.
    pub fn acquire(&mut self) -> (channel: Option<LinearChannel>)
        ensures
            channel is Some == SharedRequest::Acquire.granted(old(self).is_free()),
            final(self).is_free() == SharedRequest::Acquire.leaves_free(old(self).is_free()),
            channel matches Some(channel) ==> channel.state() == ChannelState::AtMenu
                && channel.menu() == old(self).menu(),
    {
        proof {
            use_type_invariant(&*self);
        }
        let mut taken = SharedChannel { slot: None };
        core::mem::swap(self, &mut taken);
        taken.slot
    }

    /// Puts back a linear channel whose selection has run to its end. A
    /// channel that is refused is gone.
    pub fn release(&mut self, channel: LinearChannel) -> (result: Result<(), ProtocolError>)
        ensures
            result is Ok == (SharedRequest::Release { finished: channel.finished() }).granted(
                old(self).is_free(),
            ),
            result matches Err(error) ==> error == if old(self).is_free() {
                ProtocolError::NotAcquired
            } else if channel.state() == ChannelState::AtMenu {
                ProtocolError::NothingSelected
            } else {
                ProtocolError::Unfinished
            },
            result is Ok ==> final(self).is_free() && final(self).menu() == channel.menu(),
            result is Err ==> final(self).is_free() == old(self).is_free() && (old(self).is_free()
                ==> final(self).menu() == old(self).menu()),
    {
        if self.slot.is_some() {
            return Err(ProtocolError::NotAcquired);
        }
        match channel.release() {
            Ok(channel) => {
                *self = SharedChannel { slot: Some(channel) };
                Ok(())
            },
            Err(error) => Err(error),
        }
    }
}

} // verus!
