use vstd::prelude::*;

use crate::error::EngineError;

verus! {

/// Where one dispatch stands in bringing its results back to the host.
#[derive(Debug, Clone, Copy, PartialEq, Eq, Structural)]
pub enum ReadbackPhase {
    /// Nothing is submitted yet.
    Idle,
    /// The commands are submitted to the queue.
    Submitted,
    /// A read-only mapping of the staging buffer is requested.
    MappingRequested,
    /// The staging buffer is mapped: its view may be read.
    Mapped,
    /// The results were copied out and the mapping released.
    Unmapped,
    /// The mapping failed, or its notification channel closed.
    MapFailed,
}

/// What the caller reports after carrying out the action of a phase.
#[derive(Debug, Clone, Copy, PartialEq, Eq, Structural)]
pub enum ReadbackEvent {
    /// The action was carried out.
    Done,
    /// The device was pumped and the mapping notification has not come yet.
    Pending,
    /// The mapping notification reported success.
    MapReady,
    /// The mapping notification reported an error.
    MapError,
    /// The notification channel closed before anything was sent.
    Closed,
}

/// What the caller is to do in a phase.
#[derive(Debug, Clone, Copy, PartialEq, Eq, Structural)]
pub enum ReadbackAction {
    /// Submit the recorded commands to the queue.
    Submit,
    /// Request a read-only mapping of the whole staging buffer.
    RequestMap,
    /// Drive the device's completion processing, then look for the notification.
    Pump,
    /// Copy the mapped view into host memory, drop the view, then unmap.
    CopyAndUnmap,
    /// Hand the copied results to the caller.
    Deliver,
    /// Report the error to the caller.
    Fail(EngineError),
}

/// The phase that follows `p` on `e`. An event that does not belong to the
/// phase leaves it unchanged; `Unmapped` and `MapFailed` are final.
pub open spec fn next_phase(p: ReadbackPhase, e: ReadbackEvent) -> ReadbackPhase {
    match (p, e) {
        (ReadbackPhase::Idle, ReadbackEvent::Done) => ReadbackPhase::Submitted,
        (ReadbackPhase::Submitted, ReadbackEvent::Done) => ReadbackPhase::MappingRequested,
        (ReadbackPhase::MappingRequested, ReadbackEvent::MapReady) => ReadbackPhase::Mapped,
        (ReadbackPhase::MappingRequested, ReadbackEvent::MapError) => ReadbackPhase::MapFailed,
        (ReadbackPhase::MappingRequested, ReadbackEvent::Closed) => ReadbackPhase::MapFailed,
        (ReadbackPhase::Mapped, ReadbackEvent::Done) => ReadbackPhase::Unmapped,
        _ => p,
    }
}

/// The action of phase `p`.
pub open spec fn action_of(p: ReadbackPhase) -> ReadbackAction {
    match p {
        ReadbackPhase::Idle => ReadbackAction::Submit,
        ReadbackPhase::Submitted => ReadbackAction::RequestMap,
        ReadbackPhase::MappingRequested => ReadbackAction::Pump,
        ReadbackPhase::Mapped => ReadbackAction::CopyAndUnmap,
        ReadbackPhase::Unmapped => ReadbackAction::Deliver,
        ReadbackPhase::MapFailed => ReadbackAction::Fail(EngineError::ReadbackFailed),
    }
}

/// Whether the mapped view of the staging buffer may be read in phase `p`.
pub open spec fn exposes_view(p: ReadbackPhase) -> bool {
    p == ReadbackPhase::Mapped
}

/// The phase reached from `p` after the events `es`, in order.
pub open spec fn run(p: ReadbackPhase, es: Seq<ReadbackEvent>) -> ReadbackPhase
    decreases es.len(),
{
    if es.len() == 0 {
        p
    } else {
        next_phase(run(p, es.drop_last()), es.last())
    }
}

impl ReadbackPhase {
    /// The phase that follows on `event`.
    pub fn step(self, event: ReadbackEvent) -> (r: ReadbackPhase)
        ensures
            r == next_phase(self, event),
    {
        match (self, event) {
            (ReadbackPhase::Idle, ReadbackEvent::Done) => ReadbackPhase::Submitted,
            (ReadbackPhase::Submitted, ReadbackEvent::Done) => ReadbackPhase::MappingRequested,
            (ReadbackPhase::MappingRequested, ReadbackEvent::MapReady) => ReadbackPhase::Mapped,
            (ReadbackPhase::MappingRequested, ReadbackEvent::MapError) => ReadbackPhase::MapFailed,
            (ReadbackPhase::MappingRequested, ReadbackEvent::Closed) => ReadbackPhase::MapFailed,
            (ReadbackPhase::Mapped, ReadbackEvent::Done) => ReadbackPhase::Unmapped,
            _ => self,
        }
    }

    /// What the caller is to do in this phase.
    pub fn action(self) -> (r: ReadbackAction)
        ensures
            r == action_of(self),
    {
        match self {
            ReadbackPhase::Idle => ReadbackAction::Submit,
            ReadbackPhase::Submitted => ReadbackAction::RequestMap,
            ReadbackPhase::MappingRequested => ReadbackAction::Pump,
            ReadbackPhase::Mapped => ReadbackAction::CopyAndUnmap,
            ReadbackPhase::Unmapped => ReadbackAction::Deliver,
            ReadbackPhase::MapFailed => ReadbackAction::Fail(EngineError::ReadbackFailed),
        }
    }

    /// Whether the mapped view may be read in this phase.
    pub fn view_exposed(self) -> (r: bool)
        ensures
            r == exposes_view(self),
    {
        self == ReadbackPhase::Mapped
    }

    /// Whether the read-back of this dispatch is over.
    pub fn is_final(self) -> (r: bool)
        ensures
            r == (self == ReadbackPhase::Unmapped || self == ReadbackPhase::MapFailed),
    {
        self == ReadbackPhase::Unmapped || self == ReadbackPhase::MapFailed
    }
}

/// Once the mapping is released it is never exposed again: from `Unmapped`,
/// whatever events follow, the phase stays `Unmapped`, no view may be read and
/// no further copy-and-unmap is asked for.
pub proof fn lemma_no_view_after_unmap(es: Seq<ReadbackEvent>)
    ensures
        run(ReadbackPhase::Unmapped, es) == ReadbackPhase::Unmapped,
        !exposes_view(run(ReadbackPhase::Unmapped, es)),
        action_of(run(ReadbackPhase::Unmapped, es)) != ReadbackAction::CopyAndUnmap,
    decreases es.len(),
{
    if es.len() > 0 {
        lemma_no_view_after_unmap(es.drop_last());
    }
}

/// A failed mapping is final: whatever events follow, the read-back reports
/// `ReadbackFailed` and never exposes a view.
pub proof fn lemma_map_failure_is_final(es: Seq<ReadbackEvent>)
    ensures
        run(ReadbackPhase::MapFailed, es) == ReadbackPhase::MapFailed,
        !exposes_view(run(ReadbackPhase::MapFailed, es)),
        action_of(run(ReadbackPhase::MapFailed, es)) == ReadbackAction::Fail(
            EngineError::ReadbackFailed,
        ),
    decreases es.len(),
{
    if es.len() > 0 {
        lemma_map_failure_is_final(es.drop_last());
    }
}

/// A view is exposed only after a successful mapping notification: in any run
/// from `Idle`, a phase that exposes the view was entered on `MapReady` from
/// `MappingRequested`, and the next `Done` releases it.
pub proof fn lemma_view_follows_map_ready(es: Seq<ReadbackEvent>)
    requires
        es.len() > 0,
        exposes_view(run(ReadbackPhase::Idle, es)),
    ensures
        exists|k: int|
            0 <= k < es.len() && #[trigger] es[k] == ReadbackEvent::MapReady && run(
                ReadbackPhase::Idle,
                es.take(k),
            ) == ReadbackPhase::MappingRequested,
        run(ReadbackPhase::Idle, es.push(ReadbackEvent::Done)) == ReadbackPhase::Unmapped,
    decreases es.len(),
{
    let prev = run(ReadbackPhase::Idle, es.drop_last());
    assert(es.push(ReadbackEvent::Done).drop_last() =~= es);
    if prev == ReadbackPhase::Mapped {
        assert(es.drop_last().len() > 0);
        lemma_view_follows_map_ready(es.drop_last());
        let k = choose|k: int|
            0 <= k < es.drop_last().len() && #[trigger] es.drop_last()[k] == ReadbackEvent::MapReady
                && run(ReadbackPhase::Idle, es.drop_last().take(k)) == ReadbackPhase::MappingRequested;
        assert(es.drop_last().take(k) =~= es.take(k));
        assert(es[k] == ReadbackEvent::MapReady);
    } else {
        let k = es.len() - 1;
        assert(es.take(k) =~= es.drop_last());
        assert(es[k] == ReadbackEvent::MapReady);
    }
}

} // verus!
