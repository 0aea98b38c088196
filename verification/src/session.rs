//! The batching layer: a caller's handle on a canvas that gathers bursts of
//! commands and sends each burst as one batch.
//!
//! A command is not sent when it is submitted. It joins the commands that
//! wait, and the first to join an empty buffer asks for a flush a short
//! while later. The flush sends all that has gathered by then, in the
//! order of submission. Whoever needs the channel itself gets it only
//! after a flush, so that the canvas has seen every earlier command.
//!
//! The session neither sleeps nor sends: it tells its caller when to flush
//! and what to send. A caller that shares a session between threads keeps
//! it behind one lock, and takes that lock for every call.

use crate::message::CanvasMessage;
use vstd::prelude::*;

verus! {

/// How long, in milliseconds, a flush waits for further commands.
pub const FLUSH_DELAY_MILLIS: u64 = 10;

/// A caller's handle on a canvas, with the commands that wait to be sent.
/// `C` is the shared channel to the canvas.
#[derive(Debug)]
pub struct CanvasSession<C> {
    message_buffer: Vec<CanvasMessage>,
    shared_channel: C,
}

/// The commands that wait after `message` has joined `pending`, and whether
/// a flush is to be scheduled: it is when nothing waited before.
pub open spec fn submitted(pending: Seq<CanvasMessage>, message: CanvasMessage) -> (
    Seq<CanvasMessage>,
    bool,
) {
    (pending.push(message), pending.len() == 0)
}

/// The batch that a flush sends when `pending` waits: all of it, or
/// nothing at all when nothing waits. After a flush nothing waits.
pub open spec fn flushed(pending: Seq<CanvasMessage>) -> Option<Seq<CanvasMessage>> {
    if pending.len() == 0 {
        None
    } else {
        Some(pending)
    }
}

impl<C> CanvasSession<C> {
    /// The commands that wait to be sent, oldest first.
    pub closed spec fn pending(&self) -> Seq<CanvasMessage> {
        self.message_buffer@
    }

    /// The shared channel to the canvas.
    pub closed spec fn channel(&self) -> C {
        self.shared_channel
    }

    /// A session on `shared_channel`, with nothing waiting.
    pub fn new(shared_channel: C) -> (session: CanvasSession<C>)
        ensures
            session.pending() == Seq::<CanvasMessage>::empty(),
            session.channel() == shared_channel,
    {
        CanvasSession { shared_channel, message_buffer: Vec::new() }
    }

    /// Takes all that waits out of the buffer. What is returned is to be
    /// sent as one batch; `None` means that nothing waited and nothing is
    /// to be sent.
    pub fn flush_messages(&mut self) -> (batch: Option<Vec<CanvasMessage>>)
        ensures
            final(self).pending() == Seq::<CanvasMessage>::empty(),
            final(self).channel() == old(self).channel(),
            match batch {
                Some(batch) => flushed(old(self).pending()) == Some(batch@),
                None => flushed(old(self).pending()) is None,
            },
    {
        if !self.message_buffer.is_empty() {
            let batch = self.message_buffer.split_off(0);
            assert(batch@ =~= old(self).pending());
            Some(batch)
        } else {
            None
        }
    }

    /// Submits `message`: it joins the commands that wait. Where a delay
    /// is returned, the caller is to call `flush_messages` once that many
    /// milliseconds have passed, and to send what it returns.
    pub fn send_canvas_message(&mut self, message: CanvasMessage) -> (flush_after: Option<u64>)
        ensures
            final(self).pending() == submitted(old(self).pending(), message).0,
            final(self).channel() == old(self).channel(),
            flush_after == if submitted(old(self).pending(), message).1 {
                Some(FLUSH_DELAY_MILLIS)
            } else {
                None
            },
    {
        let was_empty = self.message_buffer.is_empty();
        self.message_buffer.push(message);
        if was_empty {
            Some(FLUSH_DELAY_MILLIS)
        } else {
            None
        }
    }

    /// Flushes, and then hands out the shared channel for direct use. The
    /// batch returned, if any, is to be sent before the channel is used.
    pub fn get_shared_channel(&mut self) -> (handed: (Option<Vec<CanvasMessage>>, &C))
        ensures
            final(self).pending() == Seq::<CanvasMessage>::empty(),
            final(self).channel() == old(self).channel(),
            *handed.1 == old(self).channel(),
            match handed.0 {
                Some(batch) => flushed(old(self).pending()) == Some(batch@),
                None => flushed(old(self).pending()) is None,
            },
    {
        let batch = self.flush_messages();
        (batch, &self.shared_channel)
    }
}

/// What a caller does with a session.
pub enum SessionEvent {
    /// Submits a command.
    Submit(CanvasMessage),
    /// Flushes: when the delay has passed, or to get at the channel.
    Flush,
}

/// A session as its history has left it.
pub struct SessionTrace {
    /// The commands that wait.
    pub pending: Seq<CanvasMessage>,
    /// The batches sent so far, oldest first.
    pub batches: Seq<Seq<CanvasMessage>>,
    /// How many flushes have been scheduled so far.
    pub scheduled: nat,
}

/// A session with nothing waiting and nothing sent, after the events of
/// `events`.
pub open spec fn trace(events: Seq<SessionEvent>) -> SessionTrace
    decreases events.len(),
{
    if events.len() == 0 {
        SessionTrace { pending: seq![], batches: seq![], scheduled: 0 }
    } else {
        let before = trace(events.drop_last());
        match events.last() {
            SessionEvent::Submit(message) => SessionTrace {
                pending: submitted(before.pending, message).0,
                batches: before.batches,
                scheduled: if submitted(before.pending, message).1 {
                    before.scheduled + 1
                } else {
                    before.scheduled
                },
            },
            SessionEvent::Flush => SessionTrace {
                pending: seq![],
                batches: match flushed(before.pending) {
                    Some(batch) => before.batches.push(batch),
                    None => before.batches,
                },
                scheduled: before.scheduled,
            },
        }
    }
}

/// The commands submitted in `events`, in the order of submission.
pub open spec fn submissions(events: Seq<SessionEvent>) -> Seq<CanvasMessage>
    decreases events.len(),
{
    if events.len() == 0 {
        seq![]
    } else {
        match events.last() {
            SessionEvent::Submit(message) => submissions(events.drop_last()).push(message),
            SessionEvent::Flush => submissions(events.drop_last()),
        }
    }
}

/// The commands of `batches`, batch after batch.
pub open spec fn delivered(batches: Seq<Seq<CanvasMessage>>) -> Seq<CanvasMessage>
    decreases batches.len(),
{
    if batches.len() == 0 {
        seq![]
    } else {
        delivered(batches.drop_last()) + batches.last()
    }
}

/// Batching keeps the order of submission and loses nothing: whatever a
/// caller submits and whenever the flushes come, the commands sent so far
/// followed by those that still wait are the commands submitted, in the
/// order in which they were submitted. No batch is empty.
pub proof fn lemma_batching_preserves_order(events: Seq<SessionEvent>)
    ensures
        delivered(trace(events).batches) + trace(events).pending == submissions(events),
        forall|i: int|
            0 <= i < trace(events).batches.len() ==> (#[trigger] trace(events).batches[i]).len()
                > 0,
    decreases events.len(),
{
    if events.len() > 0 {
        lemma_batching_preserves_order(events.drop_last());
        let before = trace(events.drop_last());
        let after = trace(events);
        match events.last() {
            SessionEvent::Submit(message) => {
                assert(delivered(after.batches) + after.pending =~= (delivered(before.batches)
                    + before.pending).push(message));
            },
            SessionEvent::Flush => {
                if before.pending.len() > 0 {
                    assert(after.batches.drop_last() =~= before.batches);
                }
                assert(delivered(after.batches) + after.pending =~= delivered(before.batches)
                    + before.pending);
            },
        }
    }
}

/// The events of a burst: the commands of `messages` submitted one after
/// the other, with no flush between them.
pub open spec fn burst(messages: Seq<CanvasMessage>) -> Seq<SessionEvent> {
    Seq::new(messages.len(), |i: int| SessionEvent::Submit(messages[i]))
}

/// One burst, one flush, one batch: of the commands submitted between two
/// flushes only the first schedules a flush, and the flush that follows
/// sends them all as a single batch, in the order of submission. A flush
/// that follows no command sends nothing.
pub proof fn lemma_one_flush_per_burst(earlier: Seq<SessionEvent>, messages: Seq<CanvasMessage>)
    requires
        trace(earlier).pending.len() == 0,
    ensures
        trace(earlier + burst(messages)).pending == messages,
        trace(earlier + burst(messages)).batches == trace(earlier).batches,
        trace(earlier + burst(messages)).scheduled == trace(earlier).scheduled + if messages.len()
            > 0 {
            1nat
        } else {
            0nat
        },
        trace((earlier + burst(messages)).push(SessionEvent::Flush)).pending.len() == 0,
        trace((earlier + burst(messages)).push(SessionEvent::Flush)).batches == if messages.len()
            > 0 {
            trace(earlier).batches.push(messages)
        } else {
            trace(earlier).batches
        },
    decreases messages.len(),
{
    let events = earlier + burst(messages);
    if messages.len() == 0 {
        assert(events =~= earlier);
    } else {
        let shorter = messages.drop_last();
        lemma_one_flush_per_burst(earlier, shorter);
        assert(events.drop_last() =~= earlier + burst(shorter));
        assert(events.last() == SessionEvent::Submit(messages.last()));
        assert(trace(events).pending =~= messages);
    }
    assert(events.push(SessionEvent::Flush).drop_last() =~= events);
}

} // verus!
