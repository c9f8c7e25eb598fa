//! The live speech-capture session: a three-state machine.
//!
//! One session exists process-wide; it owns the microphone while it is
//! not idle. `Idle` is the resting state, `Listening` streams audio to
//! the recognizer, and `Processing` means capture has stopped while the
//! recognizer flushes the final transcript.

use vstd::prelude::*;

use crate::error::DictationError;

verus! {

/// The state of the single process-wide capture session.
#[derive(Clone, Copy, Debug, PartialEq, Eq, Structural)]
pub enum DictationSessionState {
    /// No capture in flight; the microphone is released.
    Idle,
    /// The microphone is open and audio streams to the recognizer.
    Listening,
    /// Capture has stopped; the recognizer finalizes the last utterance.
    Processing,
}

/// What starting a session returns: `Listening` only from `Idle`, with
/// audio permission granted and the target model ready; the matching
/// refusal otherwise. A missing model is reported before a missing
/// permission, so `ModelNotReady` is the answer whatever the permission
/// state.
pub open spec fn start_outcome(
    s: DictationSessionState,
    permission_granted: bool,
    model_ready: bool,
) -> Result<DictationSessionState, DictationError> {
    if !(s is Idle) {
        Err(DictationError::Conflict)
    } else if !model_ready {
        Err(DictationError::ModelNotReady)
    } else if !permission_granted {
        Err(DictationError::PermissionDenied)
    } else {
        Ok(DictationSessionState::Listening)
    }
}

/// The state after a start attempt: unchanged unless the start succeeded.
pub open spec fn state_after_start(
    s: DictationSessionState,
    permission_granted: bool,
    model_ready: bool,
) -> DictationSessionState {
    if start_outcome(s, permission_granted, model_ready) is Ok {
        DictationSessionState::Listening
    } else {
        s
    }
}

/// The first half of a stop: capture halts at once, so `Listening`
/// becomes `Processing`; any other state refuses with a conflict.
pub open spec fn stop_begin_outcome(
    s: DictationSessionState,
) -> Result<DictationSessionState, DictationError> {
    if s is Listening {
        Ok(DictationSessionState::Processing)
    } else {
        Err(DictationError::Conflict)
    }
}

/// The second half of a stop: once the recognizer has flushed the final
/// transcript, `Processing` settles back to `Idle`.
pub open spec fn stop_finish_outcome(
    s: DictationSessionState,
) -> Result<DictationSessionState, DictationError> {
    if s is Processing {
        Ok(DictationSessionState::Idle)
    } else {
        Err(DictationError::Conflict)
    }
}

/// What cancelling returns: from `Listening` or `Processing` the session
/// discards in-flight audio and partial results and rests at `Idle`;
/// cancelling while already `Idle` is a conflict.
pub open spec fn cancel_outcome(
    s: DictationSessionState,
) -> Result<DictationSessionState, DictationError> {
    if s is Idle {
        Err(DictationError::Conflict)
    } else {
        Ok(DictationSessionState::Idle)
    }
}

/// The state after a cancel attempt: `Idle` unless the session already was.
pub open spec fn state_after_cancel(s: DictationSessionState) -> DictationSessionState {
    DictationSessionState::Idle
}

/// The single process-wide capture session.
pub struct SpeechSession {
    /// Where the session currently stands.
    pub state: DictationSessionState,
}

impl SpeechSession {
    /// A fresh session, resting at `Idle`.
    pub fn new() -> (s: SpeechSession)
        ensures
            s.state is Idle,
    {
        SpeechSession { state: DictationSessionState::Idle }
    }

    /// Try to open the microphone and start listening. The caller states
    /// whether audio permission is granted and whether the target model
    /// is ready; the transition happens only from `Idle` with both in
    /// place, and a refusal leaves the state untouched.
    pub fn start(&mut self, permission_granted: bool, model_ready: bool) -> (r: Result<
        DictationSessionState,
        DictationError,
    >)
        ensures
            r == start_outcome(old(self).state, permission_granted, model_ready),
            final(self).state == state_after_start(old(self).state, permission_granted, model_ready),
    {
        match self.state {
            DictationSessionState::Idle => {
                if !model_ready {
                    Err(DictationError::ModelNotReady)
                } else if !permission_granted {
                    Err(DictationError::PermissionDenied)
                } else {
                    self.state = DictationSessionState::Listening;
                    Ok(DictationSessionState::Listening)
                }
            },
            _ => Err(DictationError::Conflict),
        }
    }

    /// Stop capturing: `Listening` moves to `Processing` immediately.
    pub fn begin_stop(&mut self) -> (r: Result<DictationSessionState, DictationError>)
        ensures
            r == stop_begin_outcome(old(self).state),
            r is Ok ==> final(self).state is Processing,
            r is Err ==> final(self).state == old(self).state,
    {
        match self.state {
            DictationSessionState::Listening => {
                self.state = DictationSessionState::Processing;
                Ok(DictationSessionState::Processing)
            },
            _ => Err(DictationError::Conflict),
        }
    }

    /// Settle after the recognizer has flushed: `Processing` moves to `Idle`.
    pub fn finish_stop(&mut self) -> (r: Result<DictationSessionState, DictationError>)
        ensures
            r == stop_finish_outcome(old(self).state),
            r is Ok ==> final(self).state is Idle,
            r is Err ==> final(self).state == old(self).state,
    {
        match self.state {
            DictationSessionState::Processing => {
                self.state = DictationSessionState::Idle;
                Ok(DictationSessionState::Idle)
            },
            _ => Err(DictationError::Conflict),
        }
    }

    /// Discard in-flight audio and partial results and rest at `Idle`.
    /// Only a session that is already `Idle` refuses.
    pub fn cancel(&mut self) -> (r: Result<DictationSessionState, DictationError>)
        ensures
            r == cancel_outcome(old(self).state),
            final(self).state == state_after_cancel(old(self).state),
    {
        match self.state {
            DictationSessionState::Idle => Err(DictationError::Conflict),
            _ => {
                self.state = DictationSessionState::Idle;
                Ok(DictationSessionState::Idle)
            },
        }
    }
}

/// Law: a successful start moves `Idle` to `Listening`; stopping then
/// passes through `Processing` and settles at `Idle`; and a cancel
/// attempted once the session is back at `Idle` is refused as a
/// conflict.
pub proof fn lemma_session_lifecycle()
    ensures
        start_outcome(DictationSessionState::Idle, true, true) == Ok::<
            DictationSessionState,
            DictationError,
        >(DictationSessionState::Listening),
        stop_begin_outcome(DictationSessionState::Listening) == Ok::<
            DictationSessionState,
            DictationError,
        >(DictationSessionState::Processing),
        stop_finish_outcome(DictationSessionState::Processing) == Ok::<
            DictationSessionState,
            DictationError,
        >(DictationSessionState::Idle),
        cancel_outcome(DictationSessionState::Idle) == Err::<
            DictationSessionState,
            DictationError,
        >(DictationError::Conflict),
{
}

/// Law: from `Idle`, a start with a model that is not ready is refused
/// as `ModelNotReady`, whatever the permission state, and the session
/// stays `Idle`.
pub proof fn lemma_start_needs_ready_model(permission_granted: bool)
    ensures
        start_outcome(DictationSessionState::Idle, permission_granted, false) == Err::<
            DictationSessionState,
            DictationError,
        >(DictationError::ModelNotReady),
        state_after_start(DictationSessionState::Idle, permission_granted, false)
            == DictationSessionState::Idle,
{
}

} // verus!
