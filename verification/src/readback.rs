//! Reading a result back from the device.
//!
//! Devices differ in how a result reaches the host. On a synchronous device
//! the read call blocks until the data is there. On a device with explicit
//! mapping the host asks for the result region to be mapped for reading,
//! waits for the completion signal, only then copies the bytes out, and
//! unmaps the region to give it back; a region that is not unmapped stays
//! mapped for as long as the object lives.
//!
//! The decisions are made here: `ReadBack::step` takes the state of a
//! read-back and what the device just reported, and gives the next state and
//! what to do next. The caller performs that action on the device and comes
//! back with the outcome, so it need not know which protocol it is driving.

use vstd::prelude::*;
use crate::error::ComputeError;

verus! {

/// How results reach the host.
#[derive(Debug, Clone, Copy, PartialEq, Eq, Structural)]
pub enum Protocol {
    /// The read call blocks until the data is in host memory.
    Blocking,
    /// The region is mapped, copied from and unmapped again.
    MapUnmap,
}

/// How far a read-back has come.
#[derive(Debug, Clone, Copy, PartialEq, Eq, Structural)]
pub enum Phase {
    /// A blocking read has been asked for and has not returned.
    Reading,
    /// A mapping has been asked for; its completion signal is awaited.
    AwaitingSignal,
    /// The region is mapped and may be read.
    Mapped,
    /// The bytes are in host memory; the region is still mapped.
    Copied,
    /// The result is in host memory and the device holds nothing for it.
    Done,
    /// The device refused the mapping.
    Failed,
}

/// What the device reported.
#[derive(Debug, Clone, Copy, PartialEq, Eq, Structural)]
pub enum Event {
    /// The blocking read returned.
    Returned,
    /// The completion signal of a map request arrived, with or without the
    /// mapping.
    Signal { granted: bool },
    /// The mapped bytes have been copied into host memory.
    CopiedOut,
    /// The region has been unmapped.
    Unmapped,
}

/// What the caller does next.
#[derive(Debug, PartialEq, Eq)]
pub enum Action {
    /// Read `bytes` bytes with a call that blocks.
    Read { bytes: u64 },
    /// Ask for `bytes` bytes to be mapped for reading, and wait for the
    /// completion signal.
    RequestMap { bytes: u64 },
    /// Copy `bytes` bytes out of the mapped region.
    CopyOut { bytes: u64 },
    /// Unmap the region.
    Unmap,
    /// Hand the host array to whoever asked for it.
    Deliver,
    /// Give up with this failure.
    Abort(ComputeError),
    /// The event was not expected at this point; nothing changes.
    Ignore,
}

/// The state of one read-back.
#[derive(Debug, Clone, Copy, PartialEq, Eq, Structural)]
pub struct ReadBack {
    pub protocol: Protocol,
    pub phase: Phase,
    /// The size of the result in bytes.
    pub bytes: u64,
}

impl ReadBack {
    /// The state a read-back of `bytes` bytes begins in.
    pub open spec fn spec_start(protocol: Protocol, bytes: u64) -> ReadBack {
        ReadBack {
            protocol,
            phase: match protocol {
                Protocol::Blocking => Phase::Reading,
                Protocol::MapUnmap => Phase::AwaitingSignal,
            },
            bytes,
        }
    }

    /// What a read-back of `bytes` bytes begins with.
    pub open spec fn first_action(protocol: Protocol, bytes: u64) -> Action {
        match protocol {
            Protocol::Blocking => Action::Read { bytes },
            Protocol::MapUnmap => Action::RequestMap { bytes },
        }
    }

    /// Whether `event` is what the read-back waits for in its phase.
    pub open spec fn expects(self, event: Event) -> bool {
        match (self.phase, event) {
            (Phase::Reading, Event::Returned) => true,
            (Phase::AwaitingSignal, Event::Signal { .. }) => true,
            (Phase::Mapped, Event::CopiedOut) => true,
            (Phase::Copied, Event::Unmapped) => true,
            _ => false,
        }
    }

    /// The state after `event`. An event that is not expected changes
    /// nothing.
    pub open spec fn next(self, event: Event) -> ReadBack {
        let phase = match (self.phase, event) {
            (Phase::Reading, Event::Returned) => Phase::Done,
            (Phase::AwaitingSignal, Event::Signal { granted }) => if granted {
                Phase::Mapped
            } else {
                Phase::Failed
            },
            (Phase::Mapped, Event::CopiedOut) => Phase::Copied,
            (Phase::Copied, Event::Unmapped) => Phase::Done,
            _ => self.phase,
        };
        ReadBack { phase, ..self }
    }

    /// What is to be done after `event`.
    pub open spec fn action_after(self, event: Event) -> Action {
        match (self.phase, event) {
            (Phase::Reading, Event::Returned) => Action::Deliver,
            (Phase::AwaitingSignal, Event::Signal { granted }) => if granted {
                Action::CopyOut { bytes: self.bytes }
            } else {
                Action::Abort(ComputeError::MapFailure)
            },
            (Phase::Mapped, Event::CopiedOut) => Action::Unmap,
            (Phase::Copied, Event::Unmapped) => Action::Deliver,
            _ => Action::Ignore,
        }
    }

    /// Whether the read-back has ended, well or badly.
    pub open spec fn spec_finished(self) -> bool {
        self.phase == Phase::Done || self.phase == Phase::Failed
    }

    /// Begins a read-back of `bytes` bytes: a blocking read on a synchronous
    /// device, a map request on a device with explicit mapping.
    pub fn start(protocol: Protocol, bytes: u64) -> (r: (ReadBack, Action))
        ensures
            r.0 == Self::spec_start(protocol, bytes),
            r.1 == Self::first_action(protocol, bytes),
    {
        match protocol {
            Protocol::Blocking => (
                ReadBack { protocol, phase: Phase::Reading, bytes },
                Action::Read { bytes },
            ),
            Protocol::MapUnmap => (
                ReadBack { protocol, phase: Phase::AwaitingSignal, bytes },
                Action::RequestMap { bytes },
            ),
        }
    }

    /// Takes what the device reported and decides how the read-back goes on.
    /// A refused mapping ends it with `MapFailure`; a granted one is copied
    /// from and then unmapped before the result is delivered.
    pub fn step(self, event: Event) -> (r: (ReadBack, Action))
        ensures
            r.0 == self.next(event),
            r.1 == self.action_after(event),
    {
        match (self.phase, event) {
            (Phase::Reading, Event::Returned) => (
                ReadBack { phase: Phase::Done, ..self },
                Action::Deliver,
            ),
            (Phase::AwaitingSignal, Event::Signal { granted }) => {
                if granted {
                    (ReadBack { phase: Phase::Mapped, ..self }, Action::CopyOut { bytes: self.bytes })
                } else {
                    (ReadBack { phase: Phase::Failed, ..self }, Action::Abort(ComputeError::MapFailure))
                }
            },
            (Phase::Mapped, Event::CopiedOut) => (
                ReadBack { phase: Phase::Copied, ..self },
                Action::Unmap,
            ),
            (Phase::Copied, Event::Unmapped) => (
                ReadBack { phase: Phase::Done, ..self },
                Action::Deliver,
            ),
            _ => (self, Action::Ignore),
        }
    }

    /// Whether the read-back has ended, well or badly.
    pub fn finished(&self) -> (r: bool)
        ensures
            r == self.spec_finished(),
    {
        match self.phase {
            Phase::Done | Phase::Failed => true,
            _ => false,
        }
    }

    /// The state after the first `count` of `events`, taken in order.
    pub open spec fn after(self, events: Seq<Event>, count: nat) -> ReadBack
        decreases count,
    {
        if count == 0 {
            self
        } else {
            self.after(events, (count - 1) as nat).next(events[count - 1])
        }
    }

    /// The state after all of `events`, taken in order.
    pub open spec fn run(self, events: Seq<Event>) -> ReadBack {
        self.after(events, events.len())
    }
}

/// Among the first `upto` events the mapping was granted.
pub open spec fn granted_within(events: Seq<Event>, upto: int) -> bool {
    exists|i: int| 0 <= i < upto && i < events.len() && #[trigger] events[i] == (Event::Signal {
        granted: true,
    })
}

/// Among the first `upto` events the bytes were copied out, after the
/// mapping had been granted.
pub open spec fn copied_within(events: Seq<Event>, upto: int) -> bool {
    exists|j: int|
        0 <= j < upto && j < events.len() && #[trigger] events[j] == Event::CopiedOut
            && granted_within(events, j)
}

/// Among the first `upto` events the region was unmapped, after the bytes
/// had been copied out of a granted mapping.
pub open spec fn unmapped_within(events: Seq<Event>, upto: int) -> bool {
    exists|k: int|
        0 <= k < upto && k < events.len() && #[trigger] events[k] == Event::Unmapped
            && copied_within(events, k)
}

/// Among the first `upto` events a completion signal arrived.
pub open spec fn signalled_within(events: Seq<Event>, upto: int) -> bool {
    exists|i: int| 0 <= i < upto && i < events.len() && #[trigger] events[i] is Signal
}

/// Among the first `upto` events a completion signal refused the mapping,
/// and no signal had arrived before it.
pub open spec fn refused_within(events: Seq<Event>, upto: int) -> bool {
    exists|i: int|
        0 <= i < upto && i < events.len() && #[trigger] events[i] == (Event::Signal {
            granted: false,
        }) && !signalled_within(events, i)
}

/// Among the first `upto` events the blocking read returned.
pub open spec fn returned_within(events: Seq<Event>, upto: int) -> bool {
    exists|i: int| 0 <= i < upto && i < events.len() && #[trigger] events[i] == Event::Returned
}

/// What the phase reached after the first `count` events tells of them.
spec fn phase_accounts_for(phase: Phase, events: Seq<Event>, count: int) -> bool {
    match phase {
        Phase::Reading => false,
        Phase::AwaitingSignal => !signalled_within(events, count),
        Phase::Mapped => granted_within(events, count),
        Phase::Copied => copied_within(events, count),
        Phase::Done => unmapped_within(events, count),
        Phase::Failed => refused_within(events, count),
    }
}

/// The handshake of a device with explicit mapping is kept in order: a
/// read-back that is done has had its mapping granted, has then copied the
/// bytes out, and has after that unmapped the region.
pub proof fn lemma_done_after_handshake(bytes: u64, events: Seq<Event>)
    requires
        ReadBack::spec_start(Protocol::MapUnmap, bytes).run(events).phase == Phase::Done,
    ensures
        unmapped_within(events, events.len() as int),
{
    lemma_phase_accounts(bytes, events, events.len());
}

/// The handshake is enough: where the first completion signal grants the
/// mapping, the bytes are copied out after it and the region is unmapped
/// after that, the read-back is done, whatever else is reported in between.
pub proof fn lemma_handshake_completes(
    bytes: u64,
    events: Seq<Event>,
    granted: int,
    copied: int,
    unmapped: int,
)
    requires
        0 <= granted < copied < unmapped < events.len(),
        events[granted] == (Event::Signal { granted: true }),
        !signalled_within(events, granted),
        events[copied] == Event::CopiedOut,
        events[unmapped] == Event::Unmapped,
    ensures
        ReadBack::spec_start(Protocol::MapUnmap, bytes).run(events).phase == Phase::Done,
{
    lemma_progress(bytes, events, granted, copied, unmapped, events.len());
}

/// On a synchronous device a read-back is done as soon as the read call
/// has returned, and not before.
pub proof fn lemma_blocking_done_iff_returned(bytes: u64, events: Seq<Event>)
    ensures
        ReadBack::spec_start(Protocol::Blocking, bytes).run(events).phase == Phase::Done
            <==> returned_within(events, events.len() as int),
{
    lemma_blocking_phase(bytes, events, events.len());
}

/// A read-back fails only on a refused mapping, and is not tried again:
/// where it has failed, the first completion signal that arrived refused
/// the mapping.
pub proof fn lemma_failed_on_first_signal(bytes: u64, events: Seq<Event>)
    requires
        ReadBack::spec_start(Protocol::MapUnmap, bytes).run(events).phase == Phase::Failed,
    ensures
        refused_within(events, events.len() as int),
{
    lemma_phase_accounts(bytes, events, events.len());
}

/// A read-back that has ended stays as it is, whatever is reported after.
pub proof fn lemma_finished_stays(state: ReadBack, events: Seq<Event>)
    requires
        state.spec_finished(),
    ensures
        state.run(events) == state,
{
    lemma_finished_stays_upto(state, events, events.len());
}

/// A read-back that has ended is the same after any number of events.
proof fn lemma_finished_stays_upto(state: ReadBack, events: Seq<Event>, count: nat)
    requires
        state.spec_finished(),
    ensures
        state.after(events, count) == state,
    decreases count,
{
    if count > 0 {
        lemma_finished_stays_upto(state, events, (count - 1) as nat);
    }
}

/// After any number of events a mapped read-back is in a phase that the
/// events so far account for.
proof fn lemma_phase_accounts(bytes: u64, events: Seq<Event>, count: nat)
    requires
        count <= events.len(),
    ensures
        phase_accounts_for(
            ReadBack::spec_start(Protocol::MapUnmap, bytes).after(events, count).phase,
            events,
            count as int,
        ),
    decreases count,
{
    if count > 0 {
        lemma_phase_accounts(bytes, events, (count - 1) as nat);
    }
}

/// A blocking read-back is either still reading or done, and done exactly
/// when the read has returned.
proof fn lemma_blocking_phase(bytes: u64, events: Seq<Event>, count: nat)
    requires
        count <= events.len(),
    ensures
        ({
            let phase = ReadBack::spec_start(Protocol::Blocking, bytes).after(events, count).phase;
            &&& phase == Phase::Reading || phase == Phase::Done
            &&& phase == Phase::Done <==> returned_within(events, count as int)
        }),
    decreases count,
{
    if count > 0 {
        lemma_blocking_phase(bytes, events, (count - 1) as nat);
    }
}

/// Until a completion signal arrives, a mapped read-back waits for it.
proof fn lemma_waits_for_signal(bytes: u64, events: Seq<Event>, count: nat)
    requires
        count <= events.len(),
        !signalled_within(events, count as int),
    ensures
        ReadBack::spec_start(Protocol::MapUnmap, bytes).after(events, count).phase
            == Phase::AwaitingSignal,
    decreases count,
{
    if count > 0 {
        lemma_waits_for_signal(bytes, events, (count - 1) as nat);
    }
}

/// Once the mapping is granted a read-back only moves on: it is copied from
/// at the latest when `copied` is reported, and done at the latest when
/// `unmapped` is.
proof fn lemma_progress(
    bytes: u64,
    events: Seq<Event>,
    granted: int,
    copied: int,
    unmapped: int,
    count: nat,
)
    requires
        0 <= granted < copied < unmapped < events.len(),
        events[granted] == (Event::Signal { granted: true }),
        !signalled_within(events, granted),
        events[copied] == Event::CopiedOut,
        events[unmapped] == Event::Unmapped,
        granted < count <= events.len(),
    ensures
        ({
            let phase = ReadBack::spec_start(Protocol::MapUnmap, bytes).after(events, count).phase;
            &&& phase == Phase::Mapped || phase == Phase::Copied || phase == Phase::Done
            &&& count > copied ==> phase == Phase::Copied || phase == Phase::Done
            &&& count > unmapped ==> phase == Phase::Done
        }),
    decreases count,
{
    if count == granted + 1 {
        lemma_waits_for_signal(bytes, events, granted as nat);
    } else {
        lemma_progress(bytes, events, granted, copied, unmapped, (count - 1) as nat);
    }
}

} // verus!
