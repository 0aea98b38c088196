//! A canvas in one piece: the actor together with the bookkeeping of its
//! surface.
//!
//! The actor decides what the surface is asked; the bookkeeping carries
//! out its part and answers what it can. What is left, the drawing itself
//! and the questions about paths and presentation, is handed to the
//! caller.

use crate::actor::{
    answered, run_canvas_session, step, CanvasAction, CanvasActionView, CanvasEvent, CanvasState,
    Payload, ReplyView,
};
use crate::bytes::ByteBuffer;
use crate::channel::Menu;
use crate::geometry::{Rect, Size2D, Transform2D};
use crate::protocol::CanvasOps;
use crate::raster::{
    byte_len, can_hold, cleared, lemma_region_of_written, SurfaceState, SurfaceView,
};
use crate::scalar::Single;
use crate::surface::{fills_rect, SurfaceCall};
use vstd::prelude::*;

verus! {

/// A canvas: what it offers, where its actor stands, and its surface.
#[derive(Debug)]
pub struct Canvas {
    pub menu: Menu,
    pub state: CanvasState,
    pub surface: SurfaceState,
}

/// Those of `calls` that are not bookkeeping alone, in order.
pub open spec fn drawing(calls: Seq<SurfaceCall>) -> Seq<SurfaceCall>
    decreases calls.len(),
{
    if calls.len() == 0 {
        seq![]
    } else if SurfaceView::keeps(calls.last()) {
        drawing(calls.drop_last())
    } else {
        drawing(calls.drop_last()).push(calls.last())
    }
}

/// What a canvas does on `event`: the state of its actor afterwards, its
/// surface afterwards, and what is left for its caller to do.
///
/// The actor takes its step. Of each operation that it asks of the surface
/// the bookkeeping carries out its part, and all operations but those that
/// are bookkeeping alone are left to the caller. A question that the
/// bookkeeping can answer is answered at once, and the actor takes the
/// step that the answer calls for.
pub open spec fn served(
    menu: Set<CanvasOps>,
    state: CanvasState,
    surface: SurfaceView,
    event: CanvasEvent,
) -> (CanvasState, SurfaceView, CanvasActionView) {
    let (next, action) = step(menu, state, event);
    match action {
        CanvasActionView::Perform(calls) => (
            next,
            surface.after_all(calls),
            CanvasActionView::Perform(drawing(calls)),
        ),
        CanvasActionView::Ask(query) => match surface.answer(query) {
            Some(answer) => (answered(next, answer).0, surface, answered(next, answer).1),
            None => (next, surface, action),
        },
        _ => (next, surface, action),
    }
}

impl Canvas {
    /// A canvas with a cleared surface of `size`, whose actor offers every
    /// operation; or nothing where such a surface cannot be held.
    pub fn new(size: Size2D<u64>) -> (canvas: Option<Canvas>)
        ensures
            match canvas {
                Some(canvas) => {
                    &&& can_hold(size)
                    &&& canvas.menu@ == Set::<CanvasOps>::full()
                    &&& canvas.state == CanvasState::Offering
                    &&& canvas.surface@ == cleared(size)
                },
                None => !can_hold(size),
            },
    {
        match SurfaceState::new(size) {
            Some(surface) => Some(
                Canvas { menu: Menu::full(), state: CanvasState::Offering, surface },
            ),
            None => None,
        }
    }

    /// Has the bookkeeping carry out its part of `calls`, and hands back
    /// those that are not bookkeeping alone.
    fn perform_all(&mut self, calls: Vec<SurfaceCall>) -> (left: Vec<SurfaceCall>)
        ensures
            final(self).surface@ == old(self).surface@.after_all(calls@),
            final(self).menu == old(self).menu,
            final(self).state == old(self).state,
            left@ == drawing(calls@),
    {
        let ghost all = calls@;
        let ghost start = self.surface@;
        let mut left: Vec<SurfaceCall> = Vec::new();
        for call in iter: calls
            invariant
                iter.seq() == all,
                self.menu == old(self).menu,
                self.state == old(self).state,
                self.surface@ == start.after_all(all.take(iter.index() as int)),
                left@ == drawing(all.take(iter.index() as int)),
        {
            assert(all.take(iter.index() + 1).drop_last() =~= all.take(iter.index() as int));
            if let Some(call) = self.surface.perform(call) {
                left.push(call);
            }
        }
        assert(all.take(all.len() as int) =~= all);
        left
    }

    /// Serves `event` and tells what is left for the caller to do.
    pub fn handle(&mut self, event: CanvasEvent) -> (action: CanvasAction)
        ensures
            final(self).menu == old(self).menu,
            final(self).state == served(
                old(self).menu@,
                old(self).state,
                old(self).surface@,
                event,
            ).0,
            final(self).surface@ == served(
                old(self).menu@,
                old(self).state,
                old(self).surface@,
                event,
            ).1,
            action@ == served(old(self).menu@, old(self).state, old(self).surface@, event).2,
    {
        let (next, action) = run_canvas_session(&self.menu, self.state, event);
        match action {
            CanvasAction::Perform(calls) => {
                self.state = next;
                CanvasAction::Perform(self.perform_all(calls))
            },
            CanvasAction::Ask(query) => match self.surface.answer(query) {
                Some(answer) => {
                    let (next, action) = run_canvas_session(
                        &self.menu,
                        next,
                        CanvasEvent::Answered(answer),
                    );
                    self.state = next;
                    action
                },
                None => {
                    self.state = next;
                    CanvasAction::Ask(query)
                },
            },
            other => {
                self.state = next;
                other
            },
        }
    }
}

/// A write of pixels followed by a read of the same rectangle, with no
/// command between them, gives back exactly the bytes written: for a
/// rectangle that lies on the surface, pixels that fill it, and a canvas
/// that offers both operations.
pub proof fn lemma_read_after_write(
    menu: Set<CanvasOps>,
    surface: SurfaceView,
    rect: Rect<u64>,
    pixels: ByteBuffer,
)
    requires
        menu.contains(CanvasOps::PutImageData),
        menu.contains(CanvasOps::GetImageData),
        surface.pixels.len() == byte_len(surface.size),
        rect.within(surface.size),
        fills_rect(pixels@.len(), rect),
    ensures
        ({
            let selected = served(
                menu,
                CanvasState::Offering,
                surface,
                CanvasEvent::Selected(CanvasOps::PutImageData),
            );
            let wrote = served(
                menu,
                selected.0,
                selected.1,
                CanvasEvent::Received(Payload::Patch(rect, pixels)),
            );
            let asked = served(
                menu,
                wrote.0,
                wrote.1,
                CanvasEvent::Selected(CanvasOps::GetImageData),
            );
            let read = served(
                menu,
                asked.0,
                asked.1,
                CanvasEvent::Received(Payload::Region(rect, surface.size)),
            );
            &&& read.0 == CanvasState::Offering
            &&& read.1 == wrote.1
            &&& read.2 == CanvasActionView::Send(ReplyView::Pixels(pixels@))
        }),
{
    let call = SurfaceCall::PutImageData(pixels, rect);
    let calls = seq![call];
    assert(calls.drop_last() =~= Seq::<SurfaceCall>::empty());
    assert(surface.after_all(Seq::<SurfaceCall>::empty()) == surface);
    assert(surface.after_all(calls) == surface.after(call));
    rect.lemma_clamp_to(surface.size);
    lemma_region_of_written(surface.pixels, surface.size, rect, pixels@);
    if rect.is_empty() {
        assert(pixels@.len() == 0) by (nonlinear_arith)
            requires
                pixels@.len() == rect.size.width * rect.size.height * 4,
                rect.size.width == 0 || rect.size.height == 0,
        ;
        assert(pixels@ =~= Seq::<u8>::empty());
    }
}

/// A resize discards what was there: the transform asked for right after
/// a resize is the one that moves nothing, whatever transforms were set,
/// saved or restored before. This holds for every size that can be held; a
/// resize to any other size changes nothing.
pub proof fn lemma_resize_discards_state(
    menu: Set<CanvasOps>,
    surface: SurfaceView,
    size: Size2D<u64>,
)
    requires
        menu.contains(CanvasOps::Recreate),
        menu.contains(CanvasOps::GetTransform),
        can_hold(size),
    ensures
        ({
            let selected = served(
                menu,
                CanvasState::Offering,
                surface,
                CanvasEvent::Selected(CanvasOps::Recreate),
            );
            let resized = served(
                menu,
                selected.0,
                selected.1,
                CanvasEvent::Received(Payload::Size(size)),
            );
            let asked = served(
                menu,
                resized.0,
                resized.1,
                CanvasEvent::Selected(CanvasOps::GetTransform),
            );
            &&& resized.1 == cleared(size)
            &&& asked.0 == CanvasState::Offering
            &&& asked.1 == cleared(size)
            &&& asked.2 == CanvasActionView::Send(
                ReplyView::Transform(Transform2D::<Single>::identity()),
            )
        }),
{
    let call = SurfaceCall::Recreate(size);
    let calls = seq![call];
    assert(calls.drop_last() =~= Seq::<SurfaceCall>::empty());
    assert(surface.after_all(Seq::<SurfaceCall>::empty()) == surface);
    assert(surface.after_all(calls) == surface.after(call));
}

} // verus!
