//! Capture session: one start / fetch / stop bracket around the capture
//! resource, and the assembly of its outcome.
//!
//! The session is a small state machine, Idle -> Started ->
//! FrameAvailable | FrameFailed -> Stopped, each platform operation a single
//! transition.  The platform operations themselves (begin producing frames,
//! block for the next frame, end the capture) are performed by the embedding
//! layer, which drives a [`CaptureSession`] and obeys [`CaptureSession::next_action`];
//! the decisions — the order of the bracket, that Stop runs on every path,
//! and what the attempt returns — are made here.

use vstd::prelude::*;
use crate::decode::{decode, decode_post, DecodeError};
use crate::frame::{Image, RawFrame};

verus! {

/// Platform-reported failure to deliver a frame, with its cause.
#[derive(Clone, Debug, PartialEq, Eq)]
pub struct FrameError {
    pub cause: String,
}

/// A structured failure of one capture attempt.
#[derive(Clone, Debug, PartialEq, Eq)]
pub enum CaptureFailure {
    /// The resource reported an error instead of a frame.
    Frame(FrameError),
    /// A frame arrived but could not be decoded.
    Decode(DecodeError),
}

/// The result of one capture attempt: the canonical image, or a structured
/// failure isolated to this attempt.
#[derive(Clone, Debug, PartialEq, Eq)]
pub enum CaptureOutcome {
    Captured(Image),
    Failed(CaptureFailure),
}

/// The states of one capture session.
#[derive(Clone, Copy, Debug, PartialEq, Eq, Structural)]
pub enum SessionState {
    /// Nothing has happened yet.
    Idle,
    /// The resource has been told to begin producing frames.
    Started,
    /// The blocking fetch returned a frame.
    FrameAvailable,
    /// The blocking fetch reported an error.
    FrameFailed,
    /// The resource has been told to end the capture.
    Stopped,
}

/// The platform operation the session requires next.
#[derive(Clone, Copy, Debug, PartialEq, Eq, Structural)]
pub enum SessionAction {
    /// Instruct the resource to begin producing frames.
    StartCapture,
    /// Block until the resource yields a frame or reports an error.
    FetchFrame,
    /// Instruct the resource to end the capture, releasing platform state.
    StopCapture,
    /// The bracket is complete; release exclusive access.
    Done,
}

/// The platform operation owed in each state.  Both frame outcomes owe Stop:
/// a failed fetch must never leak an active capture into the next attempt.
pub open spec fn next_action_spec(s: SessionState) -> SessionAction {
    match s {
        SessionState::Idle => SessionAction::StartCapture,
        SessionState::Started => SessionAction::FetchFrame,
        SessionState::FrameAvailable => SessionAction::StopCapture,
        SessionState::FrameFailed => SessionAction::StopCapture,
        SessionState::Stopped => SessionAction::Done,
    }
}

/// One transition of the session: `fetch_ok` reports whether the blocking
/// fetch yielded a frame, and is read only in the `Started` state.  `Stopped`
/// is final: the session never retries internally.
pub open spec fn step_spec(s: SessionState, fetch_ok: bool) -> SessionState {
    match s {
        SessionState::Idle => SessionState::Started,
        SessionState::Started => if fetch_ok {
            SessionState::FrameAvailable
        } else {
            SessionState::FrameFailed
        },
        SessionState::FrameAvailable => SessionState::Stopped,
        SessionState::FrameFailed => SessionState::Stopped,
        SessionState::Stopped => SessionState::Stopped,
    }
}

/// One capture session.  The embedding layer holds exclusive access to the
/// capture resource for the session's whole lifetime, repeatedly asks
/// [`Self::next_action`], performs that platform operation, and records its
/// completion with [`Self::advance`].
pub struct CaptureSession {
    pub state: SessionState,
}

impl CaptureSession {
    /// A fresh session, with the whole bracket still to run.
    pub fn new() -> (s: Self)
        ensures
            s.state == SessionState::Idle,
    {
        CaptureSession { state: SessionState::Idle }
    }

    /// The platform operation owed next.
    pub fn next_action(&self) -> (a: SessionAction)
        ensures
            a == next_action_spec(self.state),
    {
        match self.state {
            SessionState::Idle => SessionAction::StartCapture,
            SessionState::Started => SessionAction::FetchFrame,
            SessionState::FrameAvailable => SessionAction::StopCapture,
            SessionState::FrameFailed => SessionAction::StopCapture,
            SessionState::Stopped => SessionAction::Done,
        }
    }

    /// Record that the owed operation completed; `fetch_ok` reports the
    /// outcome of the blocking fetch and is read only from `Started`.
    pub fn advance(&mut self, fetch_ok: bool)
        ensures
            final(self).state == step_spec(old(self).state, fetch_ok),
    {
        self.state = match self.state {
            SessionState::Idle => SessionState::Started,
            SessionState::Started => if fetch_ok {
                SessionState::FrameAvailable
            } else {
                SessionState::FrameFailed
            },
            SessionState::FrameAvailable => SessionState::Stopped,
            SessionState::FrameFailed => SessionState::Stopped,
            SessionState::Stopped => SessionState::Stopped,
        };
    }

    /// Whether the bracket has run to completion.
    pub fn finished(&self) -> (b: bool)
        ensures
            b == (self.state == SessionState::Stopped),
    {
        match self.state {
            SessionState::Stopped => true,
            _ => false,
        }
    }
}

/// Failure isolation: whichever way the fetch went, the operation owed next
/// is Stop, and the Stop transition ends the session — a failed frame never
/// leaves an active capture behind.
pub proof fn lemma_stop_always_runs(fetch_ok: bool)
    ensures
        next_action_spec(step_spec(SessionState::Started, fetch_ok)) == SessionAction::StopCapture,
        step_spec(step_spec(SessionState::Started, fetch_ok), fetch_ok) == SessionState::Stopped,
{
}

/// One user trigger yields exactly one attempt: from Idle the session owes
/// Start, then Fetch, then Stop, and after those three transitions it rests
/// Stopped, for every fetch outcome.
pub proof fn lemma_session_runs_to_stopped(fetch_ok: bool)
    ensures
        next_action_spec(SessionState::Idle) == SessionAction::StartCapture,
        next_action_spec(step_spec(SessionState::Idle, fetch_ok)) == SessionAction::FetchFrame,
        step_spec(
            step_spec(step_spec(SessionState::Idle, fetch_ok), fetch_ok),
            fetch_ok,
        ) == SessionState::Stopped,
{
}

/// Exactly what [`capture_once`] returns for a given fetch outcome: a fetch
/// failure is reported as such, and a fetched frame yields whatever the
/// decoder's contract gives for it — the image on success, the decode
/// failure otherwise.
pub open spec fn outcome_post(fetched: Result<RawFrame, FrameError>, r: CaptureOutcome) -> bool {
    match fetched {
        Ok(f) => match r {
            CaptureOutcome::Captured(img) => decode_post(f, Ok(img)),
            CaptureOutcome::Failed(CaptureFailure::Decode(e)) => decode_post(f, Err(e)),
            CaptureOutcome::Failed(CaptureFailure::Frame(_)) => false,
        },
        Err(e) => r == CaptureOutcome::Failed(CaptureFailure::Frame(e)),
    }
}

/// Turn one session's fetch outcome into the capture outcome.
///
/// The start/fetch/stop bracket is driven through [`CaptureSession`]; this
/// takes the one value that bracket produced — the blocking fetch's result —
/// and finishes the attempt: a fetched frame is decoded into the canonical
/// image, a fetch failure is passed through.  Deterministic for every value
/// handed in, and a captured image is always well-formed.
pub fn capture_once(fetched: Result<RawFrame, FrameError>) -> (r: CaptureOutcome)
    ensures
        outcome_post(fetched, r),
        r matches CaptureOutcome::Captured(img) ==> img.wf(),
{
    match fetched {
        Ok(frame) => match decode(frame) {
            Ok(img) => CaptureOutcome::Captured(img),
            Err(e) => CaptureOutcome::Failed(CaptureFailure::Decode(e)),
        },
        Err(e) => CaptureOutcome::Failed(CaptureFailure::Frame(e)),
    }
}

} // verus!
