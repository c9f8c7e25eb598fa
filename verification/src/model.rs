//! Queryable snapshots of a speech model's cache state.

use vstd::prelude::*;

use crate::error::unsupported_message;
use crate::store::ModelCacheState;

verus! {

/// Where a model stands in its cache lifecycle.
#[derive(Clone, Copy, Debug, PartialEq, Eq, Structural)]
pub enum DictationModelState {
    /// No verified asset is cached for the model.
    Missing,
    /// A transfer into the cache is in flight.
    Downloading,
    /// A fully written, checksum-verified asset sits at the cache path.
    Ready,
    /// The last transfer failed; the cache holds no asset.
    Error,
}

/// Byte progress of one in-flight transfer. `total_bytes` stays `None`
/// while the remote source has not advertised a content length.
#[derive(Clone, Copy, Debug)]
pub struct DictationDownloadProgress {
    /// Bytes fetched so far; never decreases over one transfer.
    pub downloaded_bytes: u64,
    /// Advertised size of the asset, when known.
    pub total_bytes: Option<u64>,
}

/// A queryable snapshot of one model: its lifecycle state together with
/// whichever of progress, cache path and error reason is meaningful there.
#[derive(Debug)]
pub struct DictationModelStatus {
    /// The lifecycle state being reported.
    pub state: DictationModelState,
    /// The stable key of the model this snapshot describes.
    pub model_id: String,
    /// Transfer progress; present exactly while `Downloading`.
    pub progress: Option<DictationDownloadProgress>,
    /// Why the model is absent or failed; only `Missing` and `Error`
    /// may carry one, and `Error` always does.
    pub error: Option<String>,
    /// Canonical on-disk location of the asset; present exactly when `Ready`.
    pub path: Option<String>,
}

impl DictationModelStatus {
    /// The shape every reported snapshot keeps: progress only while
    /// downloading, a path only when ready, a reason only when missing
    /// or failed, and always one when failed.
    pub open spec fn wf(self) -> bool {
        &&& (self.progress is Some <==> self.state is Downloading)
        &&& (self.path is Some <==> self.state is Ready)
        &&& (self.error is Some ==> self.state is Missing || self.state is Error)
        &&& (self.state is Error ==> self.error is Some)
    }
}

/// How a snapshot reflects the cache state it was taken from: the same
/// lifecycle state, and the matching one of progress, path and reason.
pub open spec fn status_matches_cache(st: DictationModelStatus, c: ModelCacheState) -> bool {
    match c {
        ModelCacheState::Missing { reason } => {
            &&& st.state is Missing
            &&& st.progress is None
            &&& st.path is None
            &&& st.error == reason
        },
        ModelCacheState::Downloading { downloaded_bytes, total_bytes } => {
            &&& st.state is Downloading
            &&& st.progress matches Some(p) && p.downloaded_bytes == downloaded_bytes
                && p.total_bytes == total_bytes
            &&& st.path is None
            &&& st.error is None
        },
        ModelCacheState::Ready { path } => {
            &&& st.state is Ready
            &&& st.progress is None
            &&& st.path == Some(path)
            &&& st.error is None
        },
        ModelCacheState::Error { message } => {
            &&& st.state is Error
            &&& st.progress is None
            &&& st.path is None
            &&& st.error == Some(message)
        },
    }
}

/// The snapshot reported for any model on a platform without the real
/// capability: missing, with the constant unsupported reason.
pub open spec fn unsupported_status(st: DictationModelStatus, id: Seq<char>) -> bool {
    &&& st.state is Missing
    &&& st.model_id@ == id
    &&& st.progress is None
    &&& st.path is None
    &&& st.error matches Some(m) && m@ == unsupported_message()
}

/// Build the snapshot that reflects `cache` for the model named `model_id`.
pub fn status_from_cache(model_id: String, cache: &ModelCacheState) -> (st: DictationModelStatus)
    ensures
        st.wf(),
        st.model_id@ == model_id@,
        status_matches_cache(st, *cache),
{
    match cache {
        ModelCacheState::Missing { reason } => DictationModelStatus {
            state: DictationModelState::Missing,
            model_id,
            progress: None,
            error: match reason {
                Some(r) => Some(r.clone()),
                None => None,
            },
            path: None,
        },
        ModelCacheState::Downloading { downloaded_bytes, total_bytes } => DictationModelStatus {
            state: DictationModelState::Downloading,
            model_id,
            progress: Some(
                DictationDownloadProgress {
                    downloaded_bytes: *downloaded_bytes,
                    total_bytes: *total_bytes,
                },
            ),
            error: None,
            path: None,
        },
        ModelCacheState::Ready { path } => DictationModelStatus {
            state: DictationModelState::Ready,
            model_id,
            progress: None,
            error: None,
            path: Some(path.clone()),
        },
        ModelCacheState::Error { message } => DictationModelStatus {
            state: DictationModelState::Error,
            model_id,
            progress: None,
            error: Some(message.clone()),
            path: None,
        },
    }
}

} // verus!
