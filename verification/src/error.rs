//! The reasons a dictation command can be refused.

use vstd::prelude::*;

verus! {

/// Why a dictation command was refused. Every refusal is reported
/// synchronously to the caller; none of them changes shared state.
#[derive(Clone, Copy, Debug, PartialEq, Eq, Structural)]
pub enum DictationError {
    /// The caller passed an empty identifier; rejected before any
    /// shared state is touched.
    InvalidArgument,
    /// The host refused audio-capture permission, so a session cannot start.
    PermissionDenied,
    /// The target model is not `Ready`, so a session cannot start.
    ModelNotReady,
    /// A session transition was attempted from a state that does not
    /// allow it (for example stopping while idle).
    Conflict,
    /// The platform lacks the real dictation capability; every
    /// state-changing operation fails with this constant reason.
    Unsupported,
}

/// The human-readable message that [`DictationError::message`] returns
/// for each refusal.
pub open spec fn spec_message(e: DictationError) -> Seq<char> {
    match e {
        DictationError::InvalidArgument => "A non-empty identifier is required."@,
        DictationError::PermissionDenied => "Microphone permission was denied."@,
        DictationError::ModelNotReady => "The dictation model is not ready."@,
        DictationError::Conflict => "The dictation session does not allow this transition."@,
        DictationError::Unsupported => "Dictation is not available on mobile builds."@,
    }
}

/// The constant reason reported on platforms without the real capability.
pub open spec fn unsupported_message() -> Seq<char> {
    spec_message(DictationError::Unsupported)
}

impl DictationError {
    /// A human-readable description of the refusal, suitable for the
    /// string-valued wire contract.
    pub fn message(&self) -> (r: String)
        ensures
            r@ == spec_message(*self),
    {
        match self {
            DictationError::InvalidArgument => String::from_str(
                "A non-empty identifier is required.",
            ),
            DictationError::PermissionDenied => String::from_str(
                "Microphone permission was denied.",
            ),
            DictationError::ModelNotReady => String::from_str("The dictation model is not ready."),
            DictationError::Conflict => String::from_str(
                "The dictation session does not allow this transition.",
            ),
            DictationError::Unsupported => String::from_str(
                "Dictation is not available on mobile builds.",
            ),
        }
    }
}

} // verus!
