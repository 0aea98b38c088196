//! The session factory: the one place where canvases are made.
//!
//! The factory waits for the parameters of a canvas, has a surface made
//! for it, and answers with a shared channel to the new canvas, or with
//! nothing where no surface could be had. Then it waits again, for as long
//! as anyone holds its channel.

use crate::channel::{Menu, SharedChannel};
use crate::geometry::Size2D;
use crate::protocol::{CanvasOps, ProtocolError};
use vstd::prelude::*;

verus! {

/// Whether the edges of what is drawn are smoothed.
#[derive(Clone, Copy, Debug, PartialEq, Eq, Structural)]
pub enum AntialiasMode {
    /// Edges are smoothed as the surface sees fit.
    Default,
    /// Edges are left as they are.
    Off,
}

impl AntialiasMode {
    /// The mode that the flag of a creation request asks for.
    pub open spec fn spec_from_flag(antialias: bool) -> AntialiasMode {
        if antialias {
            AntialiasMode::Default
        } else {
            AntialiasMode::Off
        }
    }

    /// The mode that the flag of a creation request asks for.
    #[verifier::when_used_as_spec(spec_from_flag)]
    pub fn from_flag(antialias: bool) -> (mode: AntialiasMode)
        ensures
            mode == AntialiasMode::spec_from_flag(antialias),
    {
        if antialias {
            AntialiasMode::Default
        } else {
            AntialiasMode::Off
        }
    }
}

/// Where the factory stands.
#[derive(Clone, Copy, Debug, PartialEq, Eq, Structural)]
pub enum FactoryState {
    /// The parameters of the next canvas are awaited.
    Waiting,
    /// A surface is being made.
    Creating,
    /// The channel is gone. Nothing leads out of this state.
    Released,
}

/// What has just happened.
#[derive(Clone, Copy, Debug, PartialEq, Eq, Structural)]
pub enum FactoryEvent {
    /// A caller sent the size of a canvas, and whether to smooth edges.
    Received(Size2D<u64>, bool),
    /// The surface asked for is there, and an actor serves it.
    Created,
    /// No surface could be had.
    Refused,
    /// The last holder of the channel let go of it.
    Dropped,
}

/// What to do next.
#[derive(Debug)]
pub enum FactoryAction {
    /// Make a cleared surface of this size, start an actor on it, and come
    /// back with `Created`; or come back with `Refused`.
    Create(Size2D<u64>, AntialiasMode),
    /// Send this to the caller and wait for the next request: the shared
    /// channel of the new canvas, or nothing where there is no canvas.
    Send(Option<SharedChannel>),
    /// Close the channel: its caller broke the protocol.
    Fail(ProtocolError),
    /// Shut down.
    Stop,
}

/// An action of the factory, with a channel told by what can be known of
/// it.
pub enum FactoryActionView {
    Create(Size2D<u64>, AntialiasMode),
    /// A shared channel is sent: free or not, and with this menu.
    SendChannel { free: bool, menu: Set<CanvasOps> },
    /// Nothing is sent in place of a channel.
    SendNothing,
    Fail(ProtocolError),
    Stop,
}

impl View for FactoryAction {
    type V = FactoryActionView;

    open spec fn view(&self) -> FactoryActionView {
        match *self {
            FactoryAction::Create(size, mode) => FactoryActionView::Create(size, mode),
            FactoryAction::Send(Some(channel)) => FactoryActionView::SendChannel {
                free: channel.is_free(),
                menu: channel.menu(),
            },
            FactoryAction::Send(None) => FactoryActionView::SendNothing,
            FactoryAction::Fail(error) => FactoryActionView::Fail(error),
            FactoryAction::Stop => FactoryActionView::Stop,
        }
    }
}

/// The state that follows `state` on `event`, and what the factory does
/// on the way.
///
/// Each request is answered once: with a channel that nobody holds yet, to
/// a canvas that offers every operation, or with nothing. What comes out
/// of turn closes the factory's channel.
pub open spec fn factory_step(state: FactoryState, event: FactoryEvent) -> (
    FactoryState,
    FactoryActionView,
) {
    match (state, event) {
        (FactoryState::Released, _) => (FactoryState::Released, FactoryActionView::Stop),
        (_, FactoryEvent::Dropped) => (FactoryState::Released, FactoryActionView::Stop),
        (FactoryState::Waiting, FactoryEvent::Received(size, antialias)) => (
            FactoryState::Creating,
            FactoryActionView::Create(size, AntialiasMode::from_flag(antialias)),
        ),
        (FactoryState::Creating, FactoryEvent::Created) => (
            FactoryState::Waiting,
            FactoryActionView::SendChannel { free: true, menu: Set::full() },
        ),
        (FactoryState::Creating, FactoryEvent::Refused) => (
            FactoryState::Waiting,
            FactoryActionView::SendNothing,
        ),
        (_, _) => (FactoryState::Released, FactoryActionView::Fail(ProtocolError::OutOfOrder)),
    }
}

/// Takes one step of the factory: from `state`, on `event`, to the state
/// that follows, with what is to be done on the way.
pub fn run_create_canvas_session(state: FactoryState, event: FactoryEvent) -> (next: (
    FactoryState,
    FactoryAction,
))
    ensures
        next.0 == factory_step(state, event).0,
        next.1@ == factory_step(state, event).1,
{
    match (state, event) {
        (FactoryState::Released, _) => (FactoryState::Released, FactoryAction::Stop),
        (_, FactoryEvent::Dropped) => (FactoryState::Released, FactoryAction::Stop),
        (FactoryState::Waiting, FactoryEvent::Received(size, antialias)) => {
            let antialias_mode = AntialiasMode::from_flag(antialias);
            (FactoryState::Creating, FactoryAction::Create(size, antialias_mode))
        },
        (FactoryState::Creating, FactoryEvent::Created) => {
            let session = SharedChannel::new(Menu::full());
            (FactoryState::Waiting, FactoryAction::Send(Some(session)))
        },
        (FactoryState::Creating, FactoryEvent::Refused) => (
            FactoryState::Waiting,
            FactoryAction::Send(None),
        ),
        (_, _) => (FactoryState::Released, FactoryAction::Fail(ProtocolError::OutOfOrder)),
    }
}

/// A factory that waits for its first request.
pub fn create_canvas_session() -> (factory: FactoryState)
    ensures
        factory == FactoryState::Waiting,
{
    FactoryState::Waiting
}

} // verus!
