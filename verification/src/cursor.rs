//! Pull cursors over a dataset scan.
//!
//! `LanceStream` hands out the scan's batches one at a time; reaching the
//! end is terminal, and further pulls keep signalling the end without
//! error. `CursorPhase` and its step function are the same state machine
//! stated over events, for a driver whose batches arrive from outside the
//! core one pull at a time.

use vstd::prelude::*;

use crate::batch::Batch;
use crate::batch::BatchV;
use crate::batch::clone_batches;
use crate::dataset::DatasetContent;

verus! {

/// The mathematical value of a cursor: the scan's batches and how many of
/// them have been handed out.
pub struct StreamV {
    pub batches: Seq<BatchV>,
    pub pos: nat,
}

/// A pull cursor over one dataset scan. It owns its batch sequence and a
/// position; nothing about it is shared, so independent cursors never
/// interfere.
#[derive(Debug)]
pub struct LanceStream {
    batches: Vec<Batch>,
    pos: usize,
}

impl View for LanceStream {
    type V = StreamV;

    closed spec fn view(&self) -> StreamV {
        StreamV { batches: self.batches@.map_values(|b: Batch| b@), pos: self.pos as nat }
    }
}

impl LanceStream {
    /// Open a cursor over a dataset's content, positioned before the
    /// first batch.
    pub fn new(dataset: &DatasetContent) -> (s: LanceStream)
        ensures
            s@.pos == 0,
            s@.batches == dataset@.batches,
    {
        LanceStream { batches: clone_batches(&dataset.batches), pos: 0 }
    }

    /// Pull the next batch. Before the end, this returns the batch at the
    /// cursor's position and advances past it. At the end it returns
    /// nothing and leaves the cursor exactly as it was, so every further
    /// pull keeps signalling the end.
    pub fn next(&mut self) -> (r: Option<Batch>)
        ensures
            final(self)@.batches == old(self)@.batches,
            old(self)@.pos < old(self)@.batches.len() ==> {
                &&& r matches Some(b) && b@ == old(self)@.batches[old(self)@.pos as int]
                &&& final(self)@.pos == old(self)@.pos + 1
            },
            old(self)@.pos >= old(self)@.batches.len() ==> {
                &&& r is None
                &&& final(self)@.pos == old(self)@.pos
            },
    {
        if self.pos < self.batches.len() {
            let b = self.batches[self.pos].clone();
            self.pos = self.pos + 1;
            Some(b)
        } else {
            None
        }
    }
}

/// Where a cursor driven by outside pulls stands between two calls.
#[derive(Clone, Copy, Debug, PartialEq, Eq, Structural)]
pub enum CursorPhase {
    /// Created; nothing pulled yet.
    Created,
    /// The last pull delivered a batch.
    HasBatch,
    /// The source signalled completion; terminal.
    Exhausted,
    /// A pull failed; terminal.
    Failed,
}

/// What one outside pull reported.
#[derive(Clone, Copy, Debug, PartialEq, Eq, Structural)]
pub enum PullEvent {
    /// A batch arrived.
    Delivered,
    /// The source signalled end of data.
    EndOfData,
    /// The pull failed.
    PullFailed,
}

/// What the cursor tells its caller after a step.
#[derive(Clone, Copy, Debug, PartialEq, Eq, Structural)]
pub enum PullSignal {
    /// Hand the delivered batch to the caller.
    Deliver,
    /// Signal end of data; not an error.
    End,
    /// Signal a scan failure, distinct from the end of data.
    Fail,
}

/// Whether the driver should issue an outside pull at all: only before a
/// terminal phase. In a terminal phase the answer comes from `cursor_step`
/// without touching the source again.
pub fn cursor_should_pull(phase: &CursorPhase) -> (r: bool)
    ensures
        r == (phase is Created || phase is HasBatch),
{
    match phase {
        CursorPhase::Created => true,
        CursorPhase::HasBatch => true,
        CursorPhase::Exhausted => false,
        CursorPhase::Failed => false,
    }
}

/// One step of the cursor state machine. Terminal phases absorb every
/// event: once exhausted, the cursor keeps signalling the end, and once
/// failed it keeps signalling the failure — the two are never conflated.
pub fn cursor_step(phase: CursorPhase, event: PullEvent) -> (r: (CursorPhase, PullSignal))
    ensures
        phase is Exhausted ==> r == (CursorPhase::Exhausted, PullSignal::End),
        phase is Failed ==> r == (CursorPhase::Failed, PullSignal::Fail),
        (phase is Created || phase is HasBatch) ==> match event {
            PullEvent::Delivered => r == (CursorPhase::HasBatch, PullSignal::Deliver),
            PullEvent::EndOfData => r == (CursorPhase::Exhausted, PullSignal::End),
            PullEvent::PullFailed => r == (CursorPhase::Failed, PullSignal::Fail),
        },
{
    match phase {
        CursorPhase::Exhausted => (CursorPhase::Exhausted, PullSignal::End),
        CursorPhase::Failed => (CursorPhase::Failed, PullSignal::Fail),
        CursorPhase::Created | CursorPhase::HasBatch => match event {
            PullEvent::Delivered => (CursorPhase::HasBatch, PullSignal::Deliver),
            PullEvent::EndOfData => (CursorPhase::Exhausted, PullSignal::End),
            PullEvent::PullFailed => (CursorPhase::Failed, PullSignal::Fail),
        },
    }
}

} // verus!
