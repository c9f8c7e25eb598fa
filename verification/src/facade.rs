//! The externally callable dictation surface.
//!
//! [`DictationState`] is the one shared state container behind the
//! command surface: the model registry, the session and the permission
//! flag. The host serializes calls (one caller mutates it at a time)
//! and performs the actual transfers, disk writes and audio capture;
//! every decision — validation, platform gating, state transitions and
//! the wire-shaped answers — is made here. A platform without the real
//! capability answers with a fixed set of unsupported responses, after
//! the same input validation.

use vstd::prelude::*;

use crate::download;
use crate::download::{cancel_step, download_step, progress_step, complete_step, fail_step};
use crate::error::{unsupported_message, DictationError};
use crate::model::{
    status_from_cache, status_matches_cache, unsupported_status, DictationModelState,
    DictationModelStatus,
};
use crate::session;
use crate::session::{DictationSessionState, SpeechSession};
use crate::store::{remove_step, ModelCacheState, ModelStore};

verus! {

/// The model fetched when a command names none.
pub open spec fn default_model_id() -> Seq<char> {
    "base"@
}

/// Whether an optional identifier passes validation: an absent one
/// falls back to the default, a given one must be non-empty.
pub open spec fn id_ok(model_id: Option<String>) -> bool {
    match model_id {
        Some(id) => id@.len() > 0,
        None => true,
    }
}

/// The identifier a command acts on once validation passed.
pub open spec fn resolved_id(model_id: Option<String>) -> Seq<char> {
    match model_id {
        Some(id) => id@,
        None => default_model_id(),
    }
}

/// What requesting audio permission answers: the host's grant on a
/// supported platform, and a prompt, constant `false` — never a hang —
/// where the capability is absent.
pub open spec fn spec_request_permission(supported: bool, host_grant: bool) -> bool {
    supported && host_grant
}

/// What starting a session answers, given the platform, the stored
/// permission, the session state and the target model's cache state.
pub open spec fn spec_start_session(
    supported: bool,
    permission_granted: bool,
    s: DictationSessionState,
    target: ModelCacheState,
) -> Result<DictationSessionState, DictationError> {
    if !supported {
        Err(DictationError::Unsupported)
    } else {
        session::start_outcome(s, permission_granted, target is Ready)
    }
}

/// What stopping a session answers: only `Listening` may stop, and the
/// session then passes through `Processing` and settles at `Idle`,
/// which is the state reported back.
pub open spec fn spec_stop_session(supported: bool, s: DictationSessionState) -> Result<
    DictationSessionState,
    DictationError,
> {
    if !supported {
        Err(DictationError::Unsupported)
    } else if s is Listening {
        Ok(DictationSessionState::Idle)
    } else {
        Err(DictationError::Conflict)
    }
}

/// What cancelling a session answers.
pub open spec fn spec_cancel_session(supported: bool, s: DictationSessionState) -> Result<
    DictationSessionState,
    DictationError,
> {
    if !supported {
        Err(DictationError::Unsupported)
    } else {
        session::cancel_outcome(s)
    }
}

/// The shared dictation state behind the command surface.
pub struct DictationState {
    /// Whether the real capability trio is linked on this build.
    pub supported: bool,
    /// The host's last answer to an audio-permission request.
    pub permission_granted: bool,
    /// The durable model cache registry.
    pub store: ModelStore,
    /// The single process-wide capture session.
    pub session: SpeechSession,
}

impl DictationState {
    /// Container invariant: the registry is well formed, and a platform
    /// without the capability never granted permission, cached nothing
    /// and rests at `Idle`.
    pub open spec fn wf(self) -> bool {
        &&& self.store.wf()
        &&& !self.supported ==> !self.permission_granted && self.store.entries@.len() == 0
            && self.session.state is Idle
    }

    /// A fresh container: nothing cached, no permission, session `Idle`.
    pub fn new(supported: bool) -> (d: DictationState)
        ensures
            d.wf(),
            d.supported == supported,
            !d.permission_granted,
            d.store.entries@.len() == 0,
            d.session.state is Idle,
    {
        DictationState {
            supported,
            permission_granted: false,
            store: ModelStore::new(),
            session: SpeechSession::new(),
        }
    }

    /// Query one model's status. Read-only: on a supported platform the
    /// snapshot reflects the registry exactly; elsewhere every model
    /// reads `Missing` with the constant unsupported reason.
    pub fn model_status(&self, model_id: Option<String>) -> (r: Result<
        DictationModelStatus,
        DictationError,
    >)
        requires
            self.wf(),
        ensures
            !id_ok(model_id) ==> r == Err::<DictationModelStatus, DictationError>(
                DictationError::InvalidArgument,
            ),
            id_ok(model_id) && !self.supported ==> (r matches Ok(st) && st.wf()
                && unsupported_status(st, resolved_id(model_id))),
            id_ok(model_id) && self.supported ==> (r matches Ok(st) && st.wf() && st.model_id@
                == resolved_id(model_id) && status_matches_cache(
                st,
                self.store.cache_of(resolved_id(model_id)),
            )),
    {
        let id = match resolve_id(model_id) {
            Ok(id) => id,
            Err(e) => {
                return Err(e);
            },
        };
        if !self.supported {
            Ok(unsupported_missing_status(id))
        } else {
            let snapshot = self.store.cache_snapshot(&id);
            Ok(status_from_cache(id, &snapshot))
        }
    }

    /// Begin or attach to a download of the model. At most one transfer
    /// per id is ever live: a model already `Downloading` keeps its
    /// handle and the call reports that handle's current progress; a
    /// `Ready` model is reported as such with nothing started.
    pub fn download_model(&mut self, model_id: Option<String>) -> (r: Result<
        DictationModelStatus,
        DictationError,
    >)
        requires
            old(self).wf(),
        ensures
            final(self).wf(),
            final(self).supported == old(self).supported,
            final(self).permission_granted == old(self).permission_granted,
            final(self).session == old(self).session,
            !id_ok(model_id) ==> (r == Err::<DictationModelStatus, DictationError>(
                DictationError::InvalidArgument,
            ) && final(self).store == old(self).store),
            id_ok(model_id) && !old(self).supported ==> (r == Err::<
                DictationModelStatus,
                DictationError,
            >(DictationError::Unsupported) && final(self).store == old(self).store),
            id_ok(model_id) && old(self).supported ==> ({
                let id = resolved_id(model_id);
                &&& final(self).store.cache_of(id) == download_step(old(self).store.cache_of(id))
                &&& (forall|o: Seq<char>|
                    o != id ==> final(self).store.cache_of(o) == old(self).store.cache_of(o))
                &&& (r matches Ok(st) && st.wf() && st.model_id@ == id && status_matches_cache(
                    st,
                    final(self).store.cache_of(id),
                ))
            }),
    {
        let id = match resolve_id(model_id) {
            Ok(id) => id,
            Err(e) => {
                return Err(e);
            },
        };
        if !self.supported {
            return Err(DictationError::Unsupported);
        }
        download::start_download(&mut self.store, &id);
        let snapshot = self.store.cache_snapshot(&id);
        Ok(status_from_cache(id, &snapshot))
    }

    /// Cancel the model's in-flight download, if any, discarding its
    /// partial data; the answer is the status once the cancel is
    /// in force — `Missing` for a model that was `Downloading`, the
    /// unchanged status otherwise.
    pub fn cancel_download(&mut self, model_id: Option<String>) -> (r: Result<
        DictationModelStatus,
        DictationError,
    >)
        requires
            old(self).wf(),
        ensures
            final(self).wf(),
            final(self).supported == old(self).supported,
            final(self).permission_granted == old(self).permission_granted,
            final(self).session == old(self).session,
            !id_ok(model_id) ==> (r == Err::<DictationModelStatus, DictationError>(
                DictationError::InvalidArgument,
            ) && final(self).store == old(self).store),
            id_ok(model_id) && !old(self).supported ==> (r == Err::<
                DictationModelStatus,
                DictationError,
            >(DictationError::Unsupported) && final(self).store == old(self).store),
            id_ok(model_id) && old(self).supported ==> ({
                let id = resolved_id(model_id);
                &&& final(self).store.cache_of(id) == cancel_step(old(self).store.cache_of(id))
                &&& (forall|o: Seq<char>|
                    o != id ==> final(self).store.cache_of(o) == old(self).store.cache_of(o))
                &&& (r matches Ok(st) && st.wf() && st.model_id@ == id && status_matches_cache(
                    st,
                    final(self).store.cache_of(id),
                ))
            }),
    {
        let id = match resolve_id(model_id) {
            Ok(id) => id,
            Err(e) => {
                return Err(e);
            },
        };
        if !self.supported {
            return Err(DictationError::Unsupported);
        }
        download::cancel_download(&mut self.store, &id);
        let snapshot = self.store.cache_snapshot(&id);
        Ok(status_from_cache(id, &snapshot))
    }

    /// Delete the model's cached asset — cancelling any transfer still
    /// in flight first — and answer the post-removal status, which is
    /// always a bare `Missing` on a supported platform. Where the
    /// capability is absent nothing is cached, and the well-formed
    /// unsupported `Missing` status is answered instead.
    pub fn remove_model(&mut self, model_id: Option<String>) -> (r: Result<
        DictationModelStatus,
        DictationError,
    >)
        requires
            old(self).wf(),
        ensures
            final(self).wf(),
            final(self).supported == old(self).supported,
            final(self).permission_granted == old(self).permission_granted,
            final(self).session == old(self).session,
            !id_ok(model_id) ==> (r == Err::<DictationModelStatus, DictationError>(
                DictationError::InvalidArgument,
            ) && final(self).store == old(self).store),
            id_ok(model_id) && !old(self).supported ==> (r matches Ok(st) && st.wf()
                && unsupported_status(st, resolved_id(model_id)) && final(self).store == old(
                self,
            ).store),
            id_ok(model_id) && old(self).supported ==> ({
                let id = resolved_id(model_id);
                &&& final(self).store.cache_of(id) == remove_step(old(self).store.cache_of(id))
                &&& (forall|o: Seq<char>|
                    o != id ==> final(self).store.cache_of(o) == old(self).store.cache_of(o))
                &&& (r matches Ok(st) && st.wf() && st.model_id@ == id && status_matches_cache(
                    st,
                    final(self).store.cache_of(id),
                ))
            }),
    {
        let id = match resolve_id(model_id) {
            Ok(id) => id,
            Err(e) => {
                return Err(e);
            },
        };
        if !self.supported {
            return Ok(unsupported_missing_status(id));
        }
        self.store.remove(&id);
        let snapshot = self.store.cache_snapshot(&id);
        Ok(status_from_cache(id, &snapshot))
    }

    /// Record bytes fetched for the model, as reported by the transfer
    /// driver; see [`download::note_progress`]. The driver keeps
    /// fetching only while this answers `true`.
    pub fn note_transfer_progress(
        &mut self,
        model_id: &String,
        reported: u64,
        total: Option<u64>,
    ) -> (active: bool)
        requires
            old(self).wf(),
        ensures
            final(self).wf(),
            final(self).supported == old(self).supported,
            final(self).permission_granted == old(self).permission_granted,
            final(self).session == old(self).session,
            final(self).store.cache_of(model_id@) == progress_step(
                old(self).store.cache_of(model_id@),
                reported,
                total,
            ),
            forall|o: Seq<char>|
                o != model_id@ ==> final(self).store.cache_of(o) == old(self).store.cache_of(o),
            active == (old(self).store.cache_of(model_id@) is Downloading),
    {
        if !self.supported {
            proof {
                crate::store::lemma_fresh_store_missing(self.store, model_id@);
            }
            return false;
        }
        download::note_progress(&mut self.store, model_id, reported, total)
    }

    /// Record that the model's transfer finished, verified and was
    /// promoted to `path`; see [`download::complete_download`].
    pub fn complete_transfer(&mut self, model_id: &String, path: String) -> (applied: bool)
        requires
            old(self).wf(),
        ensures
            final(self).wf(),
            final(self).supported == old(self).supported,
            final(self).permission_granted == old(self).permission_granted,
            final(self).session == old(self).session,
            final(self).store.cache_of(model_id@) == complete_step(
                old(self).store.cache_of(model_id@),
                path,
            ),
            forall|o: Seq<char>|
                o != model_id@ ==> final(self).store.cache_of(o) == old(self).store.cache_of(o),
            applied == (old(self).store.cache_of(model_id@) is Downloading),
    {
        if !self.supported {
            proof {
                crate::store::lemma_fresh_store_missing(self.store, model_id@);
            }
            return false;
        }
        download::complete_download(&mut self.store, model_id, path)
    }

    /// Record that the model's transfer failed; see
    /// [`download::fail_download`].
    pub fn fail_transfer(&mut self, model_id: &String, message: String) -> (applied: bool)
        requires
            old(self).wf(),
        ensures
            final(self).wf(),
            final(self).supported == old(self).supported,
            final(self).permission_granted == old(self).permission_granted,
            final(self).session == old(self).session,
            final(self).store.cache_of(model_id@) == fail_step(
                old(self).store.cache_of(model_id@),
                message,
            ),
            forall|o: Seq<char>|
                o != model_id@ ==> final(self).store.cache_of(o) == old(self).store.cache_of(o),
            applied == (old(self).store.cache_of(model_id@) is Downloading),
    {
        if !self.supported {
            proof {
                crate::store::lemma_fresh_store_missing(self.store, model_id@);
            }
            return false;
        }
        download::fail_download(&mut self.store, model_id, message)
    }

    /// Ask for audio-capture permission. `host_grant` is the host OS's
    /// answer, obtained by the caller's platform layer; the call is
    /// idempotent and simply records the current grant. Where the
    /// capability is absent the answer is `false` at once, the host is
    /// never consulted and nothing is recorded.
    pub fn request_permission(&mut self, host_grant: bool) -> (granted: bool)
        requires
            old(self).wf(),
        ensures
            final(self).wf(),
            final(self).supported == old(self).supported,
            final(self).store == old(self).store,
            final(self).session == old(self).session,
            granted == spec_request_permission(old(self).supported, host_grant),
            final(self).permission_granted == spec_request_permission(
                old(self).supported,
                host_grant,
            ),
    {
        if self.supported {
            self.permission_granted = host_grant;
            host_grant
        } else {
            false
        }
    }

    /// Start the capture session on the default model. Allowed only
    /// from `Idle`, with the model `Ready` and permission granted; a
    /// model that is not ready is reported ahead of a missing
    /// permission. A refusal leaves the session untouched.
    pub fn start_session(&mut self, preferred_language: Option<String>) -> (r: Result<
        DictationSessionState,
        DictationError,
    >)
        requires
            old(self).wf(),
        ensures
            final(self).wf(),
            final(self).supported == old(self).supported,
            final(self).permission_granted == old(self).permission_granted,
            final(self).store == old(self).store,
            !lang_ok(preferred_language) ==> r == Err::<DictationSessionState, DictationError>(
                DictationError::InvalidArgument,
            ) && final(self).session == old(self).session,
            lang_ok(preferred_language) ==> r == spec_start_session(
                old(self).supported,
                old(self).permission_granted,
                old(self).session.state,
                old(self).store.cache_of(default_model_id()),
            ),
            lang_ok(preferred_language) && old(self).supported ==> final(self).session.state
                == session::state_after_start(
                old(self).session.state,
                old(self).permission_granted,
                old(self).store.cache_of(default_model_id()) is Ready,
            ),
            (!lang_ok(preferred_language) || !old(self).supported) ==> final(self).session == old(
                self,
            ).session,
    {
        match preferred_language {
            Some(lang) => {
                if lang.as_str().is_empty() {
                    return Err(DictationError::InvalidArgument);
                }
            },
            None => {},
        }
        if !self.supported {
            return Err(DictationError::Unsupported);
        }
        let target = String::from_str("base");
        let ready = match self.store.cache_snapshot(&target) {
            ModelCacheState::Ready { .. } => true,
            _ => false,
        };
        let permission_granted = self.permission_granted;
        self.session.start(permission_granted, ready)
    }

    /// Stop the capture session: capture halts at once (`Listening` to
    /// `Processing`), the recognizer flushes its final transcript, and
    /// the session settles at `Idle`, which is answered. Transcript
    /// text is delivered as it is recognized, never returned here.
    pub fn stop_session(&mut self) -> (r: Result<DictationSessionState, DictationError>)
        requires
            old(self).wf(),
        ensures
            final(self).wf(),
            final(self).supported == old(self).supported,
            final(self).permission_granted == old(self).permission_granted,
            final(self).store == old(self).store,
            r == spec_stop_session(old(self).supported, old(self).session.state),
            r is Ok ==> final(self).session.state is Idle,
            r is Err ==> final(self).session == old(self).session,
    {
        if !self.supported {
            return Err(DictationError::Unsupported);
        }
        match self.session.begin_stop() {
            Ok(_) => self.session.finish_stop(),
            Err(e) => Err(e),
        }
    }

    /// Cancel the capture session, discarding in-flight audio and
    /// partial results; the microphone is released before the call
    /// answers. Only a session already `Idle` refuses.
    pub fn cancel_session(&mut self) -> (r: Result<DictationSessionState, DictationError>)
        requires
            old(self).wf(),
        ensures
            final(self).wf(),
            final(self).supported == old(self).supported,
            final(self).permission_granted == old(self).permission_granted,
            final(self).store == old(self).store,
            r == spec_cancel_session(old(self).supported, old(self).session.state),
            r is Ok ==> final(self).session.state is Idle,
            r is Err ==> final(self).session == old(self).session,
    {
        if !self.supported {
            return Err(DictationError::Unsupported);
        }
        self.session.cancel()
    }
}

impl Default for DictationState {
    /// The container a build without the real capability starts with.
    fn default() -> (d: Self)
        ensures
            d.wf(),
            !d.supported,
            !d.permission_granted,
            d.store.entries@.len() == 0,
            d.session.state is Idle,
    {
        DictationState::new(false)
    }
}

/// Whether an optional preferred-language tag passes validation: absent
/// means the recognizer's default; a given one must be non-empty.
pub open spec fn lang_ok(preferred_language: Option<String>) -> bool {
    match preferred_language {
        Some(lang) => lang@.len() > 0,
        None => true,
    }
}

/// Validate an optional model id and resolve it to the one acted on.
fn resolve_id(model_id: Option<String>) -> (r: Result<String, DictationError>)
    ensures
        id_ok(model_id) ==> (r matches Ok(id) && id@ == resolved_id(model_id)),
        !id_ok(model_id) ==> r == Err::<String, DictationError>(DictationError::InvalidArgument),
{
    match model_id {
        Some(id) => {
            if id.as_str().is_empty() {
                Err(DictationError::InvalidArgument)
            } else {
                Ok(id)
            }
        },
        None => Ok(String::from_str("base")),
    }
}

/// The fixed `Missing` snapshot answered where the capability is absent.
fn unsupported_missing_status(model_id: String) -> (st: DictationModelStatus)
    ensures
        st.wf(),
        unsupported_status(st, model_id@),
{
    DictationModelStatus {
        state: DictationModelState::Missing,
        model_id,
        progress: None,
        error: Some(DictationError::Unsupported.message()),
        path: None,
    }
}

/// Law: where the capability is absent the surface is a fixed
/// responder — permission is never granted, a session start always
/// fails with the constant unsupported reason, and the status answered
/// for any model is `Missing` carrying that same reason.
pub proof fn lemma_unsupported_platform_fixed(
    host_grant: bool,
    permission_granted: bool,
    s: DictationSessionState,
    target: ModelCacheState,
    st: DictationModelStatus,
    id: Seq<char>,
)
    ensures
        !spec_request_permission(false, host_grant),
        spec_start_session(false, permission_granted, s, target) == Err::<
            DictationSessionState,
            DictationError,
        >(DictationError::Unsupported),
        unsupported_status(st, id) ==> st.state is Missing && st.progress is None && st.path is None
            && (st.error matches Some(m) && m@ == unsupported_message()),
{
}

/// Law: a model id never downloaded reads back `Missing`, and any well
/// formed snapshot taken of it shows neither progress nor a path.
pub proof fn lemma_fresh_model_reports_missing(
    d: DictationState,
    id: Seq<char>,
    st: DictationModelStatus,
)
    requires
        d.store.entries@.len() == 0,
        status_matches_cache(st, d.store.cache_of(id)),
    ensures
        st.state is Missing,
        st.progress is None,
        st.path is None,
        st.error is None,
{
    crate::store::lemma_fresh_store_missing(d.store, id);
}

} // verus!
