//! The download coordinator: cancellable, progress-reporting transfers.
//!
//! Each function applies one transition to a model's cache state inside
//! the store. The transfer itself — fetching bytes, writing a temporary
//! file, verifying the checksum, atomically promoting the file to the
//! cache path — is the driver's work; the driver reports what happened
//! through [`note_progress`], [`complete_download`] and
//! [`fail_download`], and learns from their results whether the model
//! still wants the transfer, which is how a cooperative cancel reaches
//! it at the next reporting boundary.

use vstd::prelude::*;

use crate::store::{ModelCacheState, ModelEntry, ModelStore, remove_step};

verus! {

/// What a download request does to a model's cache state: a `Missing`
/// or failed model gains a fresh transfer handle with zero bytes
/// fetched; a model already `Downloading` keeps its one live handle —
/// the request attaches to it rather than racing a second transfer —
/// and a `Ready` model is left as it is.
pub open spec fn download_step(c: ModelCacheState) -> ModelCacheState {
    match c {
        ModelCacheState::Missing { .. } => ModelCacheState::Downloading {
            downloaded_bytes: 0,
            total_bytes: None,
        },
        ModelCacheState::Error { .. } => ModelCacheState::Downloading {
            downloaded_bytes: 0,
            total_bytes: None,
        },
        ModelCacheState::Downloading { .. } => c,
        ModelCacheState::Ready { .. } => c,
    }
}

/// What a progress report does: while a transfer is in flight its byte
/// count rises to the reported figure but never falls below what was
/// already recorded, and the advertised total is adopted once the
/// remote source names one. A report for a model not `Downloading`
/// (for example one cancelled meanwhile) changes nothing.
pub open spec fn progress_step(c: ModelCacheState, reported: u64, total: Option<u64>) -> ModelCacheState {
    match c {
        ModelCacheState::Downloading { downloaded_bytes, total_bytes } => {
            ModelCacheState::Downloading {
                downloaded_bytes: if reported > downloaded_bytes {
                    reported
                } else {
                    downloaded_bytes
                },
                total_bytes: if total is Some {
                    total
                } else {
                    total_bytes
                },
            }
        },
        _ => c,
    }
}

/// What a completed transfer does: the model in flight becomes `Ready`
/// at the canonical cache path. Any other state — in particular one
/// already cancelled — is left alone, so a late completion of a
/// cancelled transfer never resurrects the model.
pub open spec fn complete_step(c: ModelCacheState, path: String) -> ModelCacheState {
    match c {
        ModelCacheState::Downloading { .. } => ModelCacheState::Ready { path },
        _ => c,
    }
}

/// What a failed transfer does: the model in flight records the failure
/// and the cache stays without an asset. Any other state is left alone.
pub open spec fn fail_step(c: ModelCacheState, message: String) -> ModelCacheState {
    match c {
        ModelCacheState::Downloading { .. } => ModelCacheState::Error { message },
        _ => c,
    }
}

/// What a cancel does: a transfer in flight is discarded and the model
/// reads `Missing` again, partial data and all; any other state is left
/// alone.
pub open spec fn cancel_step(c: ModelCacheState) -> ModelCacheState {
    match c {
        ModelCacheState::Downloading { .. } => ModelCacheState::Missing { reason: None },
        _ => c,
    }
}

/// Begin or attach to a transfer for `id`: apply [`download_step`] to
/// its cache state and touch no other model.
pub fn start_download(store: &mut ModelStore, id: &String)
    requires
        old(store).wf(),
    ensures
        final(store).wf(),
        final(store).cache_of(id@) == download_step(old(store).cache_of(id@)),
        forall|o: Seq<char>| o != id@ ==> final(store).cache_of(o) == old(store).cache_of(o),
{
    match store.find(id) {
        Some(i) => {
            let fresh = match &store.entries[i].cache {
                ModelCacheState::Missing { .. } => true,
                ModelCacheState::Error { .. } => true,
                _ => false,
            };
            if fresh {
                store.set_cache_at(
                    i,
                    ModelCacheState::Downloading { downloaded_bytes: 0, total_bytes: None },
                );
            }
        },
        None => {
            store.push_entry(
                ModelEntry {
                    model_id: id.clone(),
                    cache: ModelCacheState::Downloading { downloaded_bytes: 0, total_bytes: None },
                },
            );
        },
    }
}

/// Record bytes fetched for `id`: apply [`progress_step`] and touch no
/// other model. Returns whether a transfer is (still) in flight for
/// `id`; the driver stops fetching on `false`, which is how it observes
/// a cancel at its next reporting boundary.
pub fn note_progress(store: &mut ModelStore, id: &String, reported: u64, total: Option<u64>) -> (active:
    bool)
    requires
        old(store).wf(),
    ensures
        final(store).wf(),
        final(store).cache_of(id@) == progress_step(old(store).cache_of(id@), reported, total),
        forall|o: Seq<char>| o != id@ ==> final(store).cache_of(o) == old(store).cache_of(o),
        active == (old(store).cache_of(id@) is Downloading),
{
    match store.find(id) {
        Some(i) => {
            let current = match &store.entries[i].cache {
                ModelCacheState::Downloading { downloaded_bytes, total_bytes } => {
                    Some((*downloaded_bytes, *total_bytes))
                },
                _ => None,
            };
            match current {
                Some((recorded, known_total)) => {
                    let next_bytes = if reported > recorded {
                        reported
                    } else {
                        recorded
                    };
                    let next_total = match total {
                        Some(t) => Some(t),
                        None => known_total,
                    };
                    store.set_cache_at(
                        i,
                        ModelCacheState::Downloading {
                            downloaded_bytes: next_bytes,
                            total_bytes: next_total,
                        },
                    );
                    true
                },
                None => false,
            }
        },
        None => false,
    }
}

/// Record that the transfer for `id` finished, its checksum matched and
/// the asset was atomically promoted to `path`: apply [`complete_step`]
/// and touch no other model. Returns whether the report applied; the
/// driver must only make it after the promotion has really happened, so
/// that a model never reads `Ready` ahead of the disk.
pub fn complete_download(store: &mut ModelStore, id: &String, path: String) -> (applied: bool)
    requires
        old(store).wf(),
    ensures
        final(store).wf(),
        final(store).cache_of(id@) == complete_step(old(store).cache_of(id@), path),
        forall|o: Seq<char>| o != id@ ==> final(store).cache_of(o) == old(store).cache_of(o),
        applied == (old(store).cache_of(id@) is Downloading),
{
    match store.find(id) {
        Some(i) => {
            let in_flight = match &store.entries[i].cache {
                ModelCacheState::Downloading { .. } => true,
                _ => false,
            };
            if in_flight {
                store.set_cache_at(i, ModelCacheState::Ready { path });
                true
            } else {
                false
            }
        },
        None => false,
    }
}

/// Record that the transfer for `id` failed — network, disk or checksum
/// — leaving the cache without an asset: apply [`fail_step`] and touch
/// no other model. Returns whether the report applied.
pub fn fail_download(store: &mut ModelStore, id: &String, message: String) -> (applied: bool)
    requires
        old(store).wf(),
    ensures
        final(store).wf(),
        final(store).cache_of(id@) == fail_step(old(store).cache_of(id@), message),
        forall|o: Seq<char>| o != id@ ==> final(store).cache_of(o) == old(store).cache_of(o),
        applied == (old(store).cache_of(id@) is Downloading),
{
    match store.find(id) {
        Some(i) => {
            let in_flight = match &store.entries[i].cache {
                ModelCacheState::Downloading { .. } => true,
                _ => false,
            };
            if in_flight {
                store.set_cache_at(i, ModelCacheState::Error { message });
                true
            } else {
                false
            }
        },
        None => false,
    }
}

/// Cancel the transfer for `id`, discarding partial data: apply
/// [`cancel_step`] and touch no other model.
pub fn cancel_download(store: &mut ModelStore, id: &String)
    requires
        old(store).wf(),
    ensures
        final(store).wf(),
        final(store).cache_of(id@) == cancel_step(old(store).cache_of(id@)),
        forall|o: Seq<char>| o != id@ ==> final(store).cache_of(o) == old(store).cache_of(o),
{
    match store.find(id) {
        Some(i) => {
            let in_flight = match &store.entries[i].cache {
                ModelCacheState::Downloading { .. } => true,
                _ => false,
            };
            if in_flight {
                store.set_cache_at(i, ModelCacheState::Missing { reason: None });
            }
        },
        None => {},
    }
}

/// Law: a second download request right after a first one changes
/// nothing further — the two requests share the one transfer handle and
/// observe the same outcome, never two concurrent transfers.
pub proof fn lemma_second_download_attaches(c: ModelCacheState)
    ensures
        download_step(download_step(c)) == download_step(c),
{
}

/// Law: cancelling a download that has not completed leaves the model
/// `Missing` with nothing recorded for it — no progress handle, no
/// reason and, because only a `Ready` state carries a cache path, no
/// file visible at the canonical cache path.
pub proof fn lemma_cancel_discards_partial(c: ModelCacheState)
    requires
        !(c is Ready),
    ensures
        cancel_step(download_step(c)) == (ModelCacheState::Missing { reason: None::<String> }),
{
}

/// Law: progress reports never lower the recorded byte count — across
/// consecutive polls of one download the figure is non-decreasing,
/// whatever the driver reports.
pub proof fn lemma_progress_monotone(c: ModelCacheState, reported: u64, total: Option<u64>)
    requires
        c is Downloading,
    ensures
        (progress_step(c, reported, total) matches ModelCacheState::Downloading {
            downloaded_bytes: next,
            ..
        } && next >= c->Downloading_downloaded_bytes),
{
}

/// Law: once a model is removed it reads `Missing`, and no transition
/// but a freshly completed transfer can make it read `Ready` again — a
/// new request, progress reports, cancels and failures all leave it
/// un-`Ready`, while a full download-then-complete round does not.
pub proof fn lemma_removed_needs_new_download(
    c: ModelCacheState,
    reported: u64,
    total: Option<u64>,
    message: String,
    path: String,
)
    ensures
        remove_step(c) == (ModelCacheState::Missing { reason: None::<String> }),
        !(download_step(remove_step(c)) is Ready),
        !(progress_step(remove_step(c), reported, total) is Ready),
        !(cancel_step(remove_step(c)) is Ready),
        !(fail_step(remove_step(c), message) is Ready),
        complete_step(download_step(remove_step(c)), path) == (ModelCacheState::Ready { path }),
{
}

} // verus!
