//! The durable model cache: one registry of per-model cache states.
//!
//! Each model id maps to exactly one cache state. A model is `Ready`
//! only once its asset has been fully written, checksum-verified and
//! atomically promoted to the canonical cache path; the registry records
//! that promotion only when the transfer driver reports it, so a
//! half-written file is never visible as `Ready`.

use vstd::prelude::*;

verus! {

/// The per-model cache state the registry tracks.
#[derive(Debug)]
pub enum ModelCacheState {
    /// No verified asset is cached; `reason` may carry an informational
    /// note (for example that the platform is unsupported).
    Missing { reason: Option<String> },
    /// One transfer is in flight; these fields are its live handle.
    Downloading { downloaded_bytes: u64, total_bytes: Option<u64> },
    /// A verified asset sits at `path`, the canonical cache location.
    Ready { path: String },
    /// The last transfer failed and left the cache untouched.
    Error { message: String },
}

/// One registry row: a model id and its cache state.
#[derive(Debug)]
pub struct ModelEntry {
    /// The stable key of the model.
    pub model_id: String,
    /// Where the model's cached asset stands.
    pub cache: ModelCacheState,
}

/// The registry of every model the store has been asked about. Ids are
/// unique, so each model has at most one live cache state — and with it
/// at most one live download handle.
#[derive(Debug)]
pub struct ModelStore {
    /// The rows, with pairwise-distinct model ids.
    pub entries: Vec<ModelEntry>,
}

/// What removing a model leaves behind: a bare `Missing`, whatever was
/// cached or in flight before. An in-flight download is thereby
/// implicitly cancelled before the asset is discarded.
pub open spec fn remove_step(c: ModelCacheState) -> ModelCacheState {
    ModelCacheState::Missing { reason: None }
}

impl ModelStore {
    /// Registry invariant: no model id appears on two rows.
    pub open spec fn wf(self) -> bool {
        forall|i: int, j: int|
            0 <= i < j < self.entries@.len() ==> #[trigger] self.entries@[i].model_id@
                != #[trigger] self.entries@[j].model_id@
    }

    /// Whether some row carries `id`.
    pub open spec fn has_model(self, id: Seq<char>) -> bool {
        exists|i: int|
            0 <= i < self.entries@.len() && #[trigger] self.entries@[i].model_id@ == id
    }

    /// The row index that carries `id`; meaningful only when
    /// [`Self::has_model`] holds, and then unique by [`Self::wf`].
    pub open spec fn index_of(self, id: Seq<char>) -> int {
        choose|i: int|
            0 <= i < self.entries@.len() && #[trigger] self.entries@[i].model_id@ == id
    }

    /// The cache state of `id`: what its row records, or a bare
    /// `Missing` for a model the store was never asked to fetch.
    pub open spec fn cache_of(self, id: Seq<char>) -> ModelCacheState {
        if self.has_model(id) {
            self.entries@[self.index_of(id)].cache
        } else {
            ModelCacheState::Missing { reason: None }
        }
    }

    /// Two rows carrying the same id are the same row.
    pub proof fn lemma_wf_unique(self, i: int, j: int)
        requires
            self.wf(),
            0 <= i < self.entries@.len(),
            0 <= j < self.entries@.len(),
            self.entries@[i].model_id@ == self.entries@[j].model_id@,
        ensures
            i == j,
    {
        if i < j {
            assert(self.entries@[i].model_id@ != self.entries@[j].model_id@);
        } else if j < i {
            assert(self.entries@[j].model_id@ != self.entries@[i].model_id@);
        }
    }

    /// An empty registry.
    pub fn new() -> (s: ModelStore)
        ensures
            s.wf(),
            s.entries@.len() == 0,
    {
        ModelStore { entries: Vec::new() }
    }

    /// The row index carrying `id`, if any.
    pub(crate) fn find(&self, id: &String) -> (r: Option<usize>)
        requires
            self.wf(),
        ensures
            (match r {
                Some(i) => {
                    &&& (i as int) < self.entries@.len()
                    &&& self.entries@[i as int].model_id@ == id@
                    &&& self.has_model(id@)
                    &&& self.index_of(id@) == i as int
                    &&& self.cache_of(id@) == self.entries@[i as int].cache
                },
                None => !self.has_model(id@),
            }),
    {
        let n = self.entries.len();
        let mut k: usize = 0;
        while k < n
            invariant
                self.wf(),
                n == self.entries@.len(),
                k <= n,
                forall|j: int| 0 <= j < k ==> #[trigger] self.entries@[j].model_id@ != id@,
            decreases n - k,
        {
            if self.entries[k].model_id == *id {
                proof {
                    assert(self.has_model(id@));
                    let w = self.index_of(id@);
                    assert(0 <= w < self.entries@.len() && self.entries@[w].model_id@ == id@);
                    self.lemma_wf_unique(w, k as int);
                }
                return Some(k);
            }
            k += 1;
        }
        None
    }

    /// A copy of the cache state of `id`, as [`Self::cache_of`] gives it.
    pub fn cache_snapshot(&self, id: &String) -> (c: ModelCacheState)
        requires
            self.wf(),
        ensures
            c == self.cache_of(id@),
    {
        match self.find(id) {
            Some(i) => clone_cache(&self.entries[i].cache),
            None => ModelCacheState::Missing { reason: None },
        }
    }

    /// Replace the cache state on row `i`, leaving every other model alone.
    pub(crate) fn set_cache_at(&mut self, i: usize, cache: ModelCacheState)
        requires
            old(self).wf(),
            (i as int) < old(self).entries@.len(),
        ensures
            final(self).wf(),
            final(self).entries@.len() == old(self).entries@.len(),
            final(self).cache_of(old(self).entries@[i as int].model_id@) == cache,
            forall|o: Seq<char>|
                o != old(self).entries@[i as int].model_id@ ==> final(self).cache_of(o) == old(
                    self,
                ).cache_of(o),
    {
        let mid = self.entries[i].model_id.clone();
        let ghost pre = *self;
        self.entries[i] = ModelEntry { model_id: mid, cache };
        proof {
            lemma_replace_frame(pre, *self, i as int);
            assert(self.entries@[i as int].cache == cache);
        }
    }

    /// Append a row for an id the store has no row for yet.
    pub(crate) fn push_entry(&mut self, entry: ModelEntry)
        requires
            old(self).wf(),
            !old(self).has_model(entry.model_id@),
        ensures
            final(self).wf(),
            final(self).cache_of(entry.model_id@) == entry.cache,
            forall|o: Seq<char>|
                o != entry.model_id@ ==> final(self).cache_of(o) == old(self).cache_of(o),
    {
        let ghost pre = *self;
        let ghost e = entry;
        self.entries.push(entry);
        proof {
            lemma_push_frame(pre, *self, e);
        }
    }

    /// Delete whatever is cached or in flight for `id` and leave the
    /// model `Missing`. Deleting a model that was never fetched is a
    /// no-op that still reports `Missing`.
    pub fn remove(&mut self, id: &String)
        requires
            old(self).wf(),
        ensures
            final(self).wf(),
            final(self).cache_of(id@) == remove_step(old(self).cache_of(id@)),
            forall|o: Seq<char>| o != id@ ==> final(self).cache_of(o) == old(self).cache_of(o),
    {
        match self.find(id) {
            Some(i) => {
                self.set_cache_at(i, ModelCacheState::Missing { reason: None });
            },
            None => {},
        }
    }
}

/// Law: a model id the store was never asked to fetch reads back as a
/// bare `Missing` — no progress handle, no cache path, no reason.
pub proof fn lemma_fresh_store_missing(s: ModelStore, id: Seq<char>)
    requires
        s.entries@.len() == 0,
    ensures
        s.cache_of(id) == (ModelCacheState::Missing { reason: None::<String> }),
{
    if s.has_model(id) {
        let w = s.index_of(id);
        assert(0 <= w < s.entries@.len() && s.entries@[w].model_id@ == id);
    }
}

/// A copy of one cache state, equal to the original.
fn clone_cache(c: &ModelCacheState) -> (r: ModelCacheState)
    ensures
        r == *c,
{
    match c {
        ModelCacheState::Missing { reason } => ModelCacheState::Missing {
            reason: clone_opt_string(reason),
        },
        ModelCacheState::Downloading { downloaded_bytes, total_bytes } => {
            ModelCacheState::Downloading {
                downloaded_bytes: *downloaded_bytes,
                total_bytes: *total_bytes,
            }
        },
        ModelCacheState::Ready { path } => ModelCacheState::Ready { path: path.clone() },
        ModelCacheState::Error { message } => ModelCacheState::Error { message: message.clone() },
    }
}

/// A copy of an optional string, equal to the original.
fn clone_opt_string(o: &Option<String>) -> (r: Option<String>)
    ensures
        r == *o,
{
    match o {
        Some(s) => Some(s.clone()),
        None => None,
    }
}

/// Replacing the cache state on one row keeps the registry well formed
/// and leaves every other model's cache state as it was.
proof fn lemma_replace_frame(pre: ModelStore, post: ModelStore, i: int)
    requires
        pre.wf(),
        0 <= i < pre.entries@.len(),
        post.entries@.len() == pre.entries@.len(),
        post.entries@[i].model_id@ == pre.entries@[i].model_id@,
        forall|k: int|
            0 <= k < pre.entries@.len() && k != i ==> post.entries@[k] == pre.entries@[k],
    ensures
        post.wf(),
        post.cache_of(pre.entries@[i].model_id@) == post.entries@[i].cache,
        forall|o: Seq<char>|
            o != pre.entries@[i].model_id@ ==> post.cache_of(o) == pre.cache_of(o),
{
    let id = pre.entries@[i].model_id@;
    assert forall|k: int| 0 <= k < post.entries@.len() implies #[trigger] post.entries@[k].model_id@
        == pre.entries@[k].model_id@ by {
        if k != i {
            assert(post.entries@[k] == pre.entries@[k]);
        }
    }
    assert forall|a: int, b: int| 0 <= a < b < post.entries@.len() implies #[trigger] post.entries@[a].model_id@
        != #[trigger] post.entries@[b].model_id@ by {
        assert(pre.entries@[a].model_id@ != pre.entries@[b].model_id@);
    }
    assert(post.entries@[i].model_id@ == id);
    assert(post.has_model(id));
    let w = post.index_of(id);
    assert(0 <= w < post.entries@.len() && post.entries@[w].model_id@ == id);
    post.lemma_wf_unique(w, i);
    assert forall|o: Seq<char>| o != id implies post.cache_of(o) == pre.cache_of(o) by {
        if pre.has_model(o) {
            let wp = pre.index_of(o);
            assert(0 <= wp < pre.entries@.len() && pre.entries@[wp].model_id@ == o);
            assert(wp != i);
            assert(post.entries@[wp] == pre.entries@[wp]);
            assert(post.entries@[wp].model_id@ == o);
            assert(post.has_model(o));
            let wq = post.index_of(o);
            assert(0 <= wq < post.entries@.len() && post.entries@[wq].model_id@ == o);
            post.lemma_wf_unique(wq, wp);
        } else {
            if post.has_model(o) {
                let wq = post.index_of(o);
                assert(0 <= wq < post.entries@.len() && post.entries@[wq].model_id@ == o);
                assert(pre.entries@[wq].model_id@ == o);
                assert(pre.has_model(o));
            }
        }
    }
}

/// Appending a row for a fresh id keeps the registry well formed and
/// leaves every other model's cache state as it was.
proof fn lemma_push_frame(pre: ModelStore, post: ModelStore, e: ModelEntry)
    requires
        pre.wf(),
        !pre.has_model(e.model_id@),
        post.entries@ == pre.entries@.push(e),
    ensures
        post.wf(),
        post.cache_of(e.model_id@) == e.cache,
        forall|o: Seq<char>| o != e.model_id@ ==> post.cache_of(o) == pre.cache_of(o),
{
    let n = pre.entries@.len() as int;
    assert(post.entries@.len() == n + 1);
    assert(post.entries@[n] == e);
    assert forall|a: int, b: int| 0 <= a < b < post.entries@.len() implies #[trigger] post.entries@[a].model_id@
        != #[trigger] post.entries@[b].model_id@ by {
        if b < n {
            assert(post.entries@[a] == pre.entries@[a]);
            assert(post.entries@[b] == pre.entries@[b]);
            assert(pre.entries@[a].model_id@ != pre.entries@[b].model_id@);
        } else {
            assert(post.entries@[b] == e);
            assert(post.entries@[a] == pre.entries@[a]);
            if pre.entries@[a].model_id@ == e.model_id@ {
                assert(pre.has_model(e.model_id@));
            }
        }
    }
    assert(post.entries@[n].model_id@ == e.model_id@);
    assert(post.has_model(e.model_id@));
    let w = post.index_of(e.model_id@);
    assert(0 <= w < post.entries@.len() && post.entries@[w].model_id@ == e.model_id@);
    post.lemma_wf_unique(w, n);
    assert forall|o: Seq<char>| o != e.model_id@ implies post.cache_of(o) == pre.cache_of(o) by {
        if pre.has_model(o) {
            let wp = pre.index_of(o);
            assert(0 <= wp < pre.entries@.len() && pre.entries@[wp].model_id@ == o);
            assert(post.entries@[wp] == pre.entries@[wp]);
            assert(post.entries@[wp].model_id@ == o);
            assert(post.has_model(o));
            let wq = post.index_of(o);
            assert(0 <= wq < post.entries@.len() && post.entries@[wq].model_id@ == o);
            post.lemma_wf_unique(wq, wp);
        } else {
            if post.has_model(o) {
                let wq = post.index_of(o);
                assert(0 <= wq < post.entries@.len() && post.entries@[wq].model_id@ == o);
                assert(wq != n);
                assert(post.entries@[wq] == pre.entries@[wq]);
                assert(pre.entries@[wq].model_id@ == o);
                assert(pre.has_model(o));
            }
        }
    }
}

} // verus!
