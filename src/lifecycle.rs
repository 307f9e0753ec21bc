//! The recording session's lifecycle: Idle, Recording, Draining, Stopped.
use vstd::prelude::*;

verus! {

/// Failures surfaced to the caller of `start` and `stop`.
pub enum CaptureError {
    /// No capture device or API was found.
    BackendUnavailable,
    /// The backend accepted the device but rejected the requested format.
    StreamBuildFailed,
    /// Writing to the sink failed; carries the failure detail.
    SinkError(String),
    /// `start` or `stop` called in a phase that does not allow it.
    LifecycleMisuse,
}

/// Phase of a recording session. `Stopped` is terminal.
#[derive(PartialEq, Eq, Structural, Clone, Copy, Debug)]
pub enum Phase {
    Idle,
    Recording,
    Draining,
    Stopped,
}

/// Outcome of acquiring the platform capture backend.
pub enum BackendStatus {
    Ready,
    Unavailable,
    FormatRejected,
}

/// One-shot completion signal sent by the mixing loop.
pub enum Completion {
    Finished,
    Error(String),
}

/// Phase after a `start` attempt.
pub open spec fn start_phase(p: Phase, b: BackendStatus) -> Phase {
    if p == Phase::Idle && b is Ready {
        Phase::Recording
    } else {
        p
    }
}

/// Phase after a `stop` request.
pub open spec fn stop_phase(p: Phase) -> Phase {
    if p == Phase::Recording {
        Phase::Draining
    } else {
        p
    }
}

/// Phase after the completion signal arrived or its wait timed out.
pub open spec fn complete_phase(p: Phase) -> Phase {
    if p == Phase::Draining {
        Phase::Stopped
    } else {
        p
    }
}

/// Controller of one recording session.
pub struct Lifecycle {
    phase: Phase,
}

impl Lifecycle {
    pub closed spec fn phase_of(&self) -> Phase {
        self.phase
    }

    /// A session that has not started.
    pub fn new() -> (r: Lifecycle)
        ensures
            r.phase_of() == Phase::Idle,
    {
        Lifecycle { phase: Phase::Idle }
    }

    pub fn phase(&self) -> (r: Phase)
        ensures
            r == self.phase_of(),
    {
        self.phase
    }

    /// Whether a backend may be acquired now: only in `Idle`; otherwise `LifecycleMisuse`,
    /// with no side effect.
    pub fn start_allowed(&self) -> (r: Result<(), CaptureError>)
        ensures
            r is Ok <==> self.phase_of() == Phase::Idle,
            r matches Err(e) ==> e is LifecycleMisuse,
    {
        if self.phase == Phase::Idle {
            Ok(())
        } else {
            Err(CaptureError::LifecycleMisuse)
        }
    }

    /// Records the outcome of acquiring the backend. From `Idle` a ready backend moves the
    /// session to `Recording`; a failed acquisition leaves it `Idle` with the matching error.
    /// In any other phase the call is `LifecycleMisuse` and changes nothing.
    pub fn start(&mut self, backend: BackendStatus) -> (r: Result<(), CaptureError>)
        ensures
            final(self).phase_of() == start_phase(old(self).phase_of(), backend),
            old(self).phase_of() != Phase::Idle ==> r matches Err(CaptureError::LifecycleMisuse),
            old(self).phase_of() == Phase::Idle ==> match backend {
                BackendStatus::Ready => r is Ok,
                BackendStatus::Unavailable => r matches Err(CaptureError::BackendUnavailable),
                BackendStatus::FormatRejected => r matches Err(CaptureError::StreamBuildFailed),
            },
    {
        if self.phase != Phase::Idle {
            return Err(CaptureError::LifecycleMisuse);
        }
        match backend {
            BackendStatus::Ready => {
                self.phase = Phase::Recording;
                Ok(())
            },
            BackendStatus::Unavailable => Err(CaptureError::BackendUnavailable),
            BackendStatus::FormatRejected => Err(CaptureError::StreamBuildFailed),
        }
    }

    /// Requests the end of recording: from `Recording` the session moves to `Draining`,
    /// where the caller sends `Stop` into both channels and waits for completion. In any
    /// other phase the call is `LifecycleMisuse` and changes nothing.
    pub fn stop(&mut self) -> (r: Result<(), CaptureError>)
        ensures
            final(self).phase_of() == stop_phase(old(self).phase_of()),
            r is Ok <==> old(self).phase_of() == Phase::Recording,
            r matches Err(e) ==> e is LifecycleMisuse,
    {
        if self.phase == Phase::Recording {
            self.phase = Phase::Draining;
            Ok(())
        } else {
            Err(CaptureError::LifecycleMisuse)
        }
    }

    /// Ends the drain with the completion signal, or `None` when the bounded wait for it
    /// ran out: the session is `Stopped` either way. A sink failure becomes `SinkError`
    /// with its detail. Outside `Draining` the call is `LifecycleMisuse` and changes nothing.
    pub fn complete(&mut self, signal: Option<Completion>) -> (r: Result<(), CaptureError>)
        ensures
            final(self).phase_of() == complete_phase(old(self).phase_of()),
            old(self).phase_of() != Phase::Draining ==> r matches Err(
                CaptureError::LifecycleMisuse,
            ),
            old(self).phase_of() == Phase::Draining ==> match signal {
                Some(Completion::Error(d)) => r matches Err(CaptureError::SinkError(x)) && x@
                    == d@,
                _ => r is Ok,
            },
    {
        if self.phase != Phase::Draining {
            return Err(CaptureError::LifecycleMisuse);
        }
        self.phase = Phase::Stopped;
        match signal {
            Some(Completion::Error(d)) => Err(CaptureError::SinkError(d)),
            _ => Ok(()),
        }
    }
}

/// A session that starts with a ready backend and is then stopped once reaches `Stopped`
/// once its drain completes, whatever the completion signal; a second `stop` is refused
/// and leaves it there.
pub proof fn lemma_start_stop_reaches_stopped()
    ensures
        stop_phase(start_phase(Phase::Idle, BackendStatus::Ready)) == Phase::Draining,
        complete_phase(stop_phase(start_phase(Phase::Idle, BackendStatus::Ready)))
            == Phase::Stopped,
        stop_phase(complete_phase(stop_phase(start_phase(Phase::Idle, BackendStatus::Ready))))
            == Phase::Stopped,
{
}

} // verus!
