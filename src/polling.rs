use crate::{Sample, SampleModel};
use vstd::prelude::*;

verus! {

/// What happens to a polling adapter.
#[derive(Debug, Clone, Copy, PartialEq, Eq, Structural)]
pub enum PollEvent {
    /// The periodic timer fired.
    Tick,
    /// The peer answered with a reading (the bit pattern of an `f32`),
    /// received at `timestamp` milliseconds since the Unix epoch.
    Reading { value: u32, timestamp: u64 },
    /// The call to the peer failed.
    Failure,
}

/// What a polling adapter does next.
#[derive(Debug)]
pub enum PollAction {
    /// Call the peer.
    Request,
    /// Send this sample to the storage actor.
    Forward(Sample),
    /// Do nothing until the next event.
    Wait,
}

/// The decisions of the adapter that polls one peer.
///
/// At most one call to the peer is in flight: a tick that fires while a
/// call is pending is skipped, not queued. A reading becomes a sample of
/// the adapter's identifier; a failed call is dropped, and the next tick
/// is its retry.
pub struct PollingService {
    identifier: String,
    awaiting_reply: bool,
}

impl PollingService {
    /// The identifier of the samples that this adapter produces.
    pub closed spec fn source(&self) -> Seq<char> {
        self.identifier@
    }

    /// Whether a call to the peer is in flight.
    pub closed spec fn awaiting(&self) -> bool {
        self.awaiting_reply
    }

    pub fn new(identifier: String) -> (r: PollingService)
        ensures
            r.source() == identifier@,
            !r.awaiting(),
    {
        PollingService { identifier, awaiting_reply: false }
    }

    /// Whether a call to the peer is in flight.
    pub fn is_awaiting_reply(&self) -> (r: bool)
        ensures
            r == self.awaiting(),
    {
        self.awaiting_reply
    }

    /// Takes one event and says what to do next.
    pub fn step(&mut self, event: PollEvent) -> (a: PollAction)
        ensures
            final(self).source() == old(self).source(),
            match event {
                PollEvent::Tick => {
                    &&& final(self).awaiting()
                    &&& old(self).awaiting() ==> a is Wait
                    &&& !old(self).awaiting() ==> a is Request
                },
                PollEvent::Reading { value, timestamp } => {
                    &&& !final(self).awaiting()
                    &&& a is Forward
                    &&& a->Forward_0@ == (SampleModel {
                        identifier: old(self).source(),
                        timestamp,
                        value,
                    })
                },
                PollEvent::Failure => {
                    &&& !final(self).awaiting()
                    &&& a is Wait
                },
            },
    {
        match event {
            PollEvent::Tick => {
                if self.awaiting_reply {
                    PollAction::Wait
                } else {
                    self.awaiting_reply = true;
                    PollAction::Request
                }
            },
            PollEvent::Reading { value, timestamp } => {
                self.awaiting_reply = false;
                PollAction::Forward(Sample::new(self.identifier.clone(), timestamp, value))
            },
            PollEvent::Failure => {
                self.awaiting_reply = false;
                PollAction::Wait
            },
        }
    }
}

} // verus!
