//! FIFO progress-event buffer.
//!
//! Workers append [`ProgressEvent`]s from anywhere; one emitter loop pops
//! the oldest event at a time and forwards it.  The contracts below pin the
//! first-in-first-out discipline down: `add` appends at the back, and
//! `send_one_update` removes exactly the front, so the emission order of a
//! run equals the append order no matter how producers interleaved — each
//! append placed its event behind everything appended before it.

use vstd::prelude::*;
use std::collections::VecDeque;

verus! {

/// What a progress event reports: one file that succeeded, one file that
/// failed, one worker that ran out of work, or the whole job finishing.
#[derive(Clone, Copy, Debug, PartialEq, Eq, Structural)]
pub enum EventKind {
    Success,
    Fail,
    WorkerFinished,
    JobFinished,
}

/// One unit of progress: which worker it concerns (0 is reserved for
/// job-level events), a free-text message, and the kind of event.
#[derive(Clone, Debug)]
pub struct ProgressEvent {
    pub handling_thread: i32,
    pub msg: String,
    pub kind: EventKind,
}

impl ProgressEvent {
    /// True exactly for the event that ends the emitter loop.
    pub fn is_terminal(&self) -> (b: bool)
        ensures
            b <==> self.kind == EventKind::JobFinished,
    {
        self.kind == EventKind::JobFinished
    }
}

/// FIFO queue of progress events, drained by one background loop.
pub struct ProgressBuffer {
    buffer: VecDeque<ProgressEvent>,
}

impl View for ProgressBuffer {
    type V = Seq<ProgressEvent>;

    closed spec fn view(&self) -> Seq<ProgressEvent> {
        self.buffer@
    }
}

impl ProgressBuffer {
    /// An empty buffer.
    pub fn new() -> (buf: ProgressBuffer)
        ensures
            buf@ == Seq::<ProgressEvent>::empty(),
    {
        let buff: VecDeque<ProgressEvent> = VecDeque::new();
        ProgressBuffer { buffer: buff }
    }

    /// Append one event behind everything already buffered.
    pub fn add(&mut self, update: ProgressEvent)
        ensures
            final(self)@ == old(self)@.push(update),
    {
        self.buffer.push_back(update);
    }

    /// Remove and hand out the oldest buffered event; `None` when the
    /// buffer is empty.  The caller forwards the event and stops its loop
    /// when the event is terminal.
    pub fn send_one_update(&mut self) -> (update: Option<ProgressEvent>)
        ensures
            match update {
                Some(e) => old(self)@.len() > 0 && e == old(self)@[0]
                    && final(self)@ == old(self)@.drop_first(),
                None => old(self)@.len() == 0 && final(self)@ == old(self)@,
            },
    {
        match self.buffer.pop_front() {
            Some(update) => {
                proof {
                    assert(old(self)@.subrange(1, old(self)@.len() as int)
                        =~= old(self)@.drop_first());
                }
                Some(update)
            },
            None => None,
        }
    }

    /// Empty the buffer front to back.  The result is exactly the buffered
    /// sequence: emission order equals append order, whatever interleaving
    /// of producers built the buffer.
    pub fn drain_in_order(&mut self) -> (out: Vec<ProgressEvent>)
        ensures
            out@ == old(self)@,
            final(self)@ == Seq::<ProgressEvent>::empty(),
    {
        let ghost orig = old(self)@;
        let mut out: Vec<ProgressEvent> = Vec::new();
        loop
            invariant
                orig == old(self)@,
                out@ + self@ == orig,
            decreases self@.len(),
        {
            match self.send_one_update() {
                Some(e) => {
                    out.push(e);
                    proof {
                        assert(out@ + self@ =~= orig);
                    }
                },
                None => {
                    proof {
                        assert(out@ =~= orig);
                        assert(self@ =~= Seq::<ProgressEvent>::empty());
                    }
                    return out;
                },
            }
        }
    }
}

} // verus!
