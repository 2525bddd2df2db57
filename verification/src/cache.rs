//! Cache-aside listing of a tenant's projects, and the invalidation that
//! follows every project write.
//!
//! The flows decide; the caller performs each action (a cache or store call)
//! and hands back what came of it as the next event.

use vstd::prelude::*;
use crate::error::ApiError;
use crate::ids::{uuid_string, uuid_text, lemma_uuid_text_injective};
use vstd::string::*;

verus! {

/// How long a cached project list lives, in seconds.
pub const PROJECT_LIST_TTL_SECS: u64 = 300;

/// The cache key under which a tenant's project list is kept.
pub open spec fn project_list_key(tenant_id: u128) -> Seq<char> {
    "project_list:"@ + uuid_text(tenant_id)
}

/// The cache key under which a tenant's project list is kept:
/// `project_list:` followed by the tenant id's text.
pub fn project_list_cache_key(tenant_id: u128) -> (key: String)
    ensures
        key@ == project_list_key(tenant_id),
{
    let id = uuid_string(tenant_id);
    String::from_str("project_list:").concat(id.as_str())
}

/// Two tenants never share a project-list cache entry.
pub proof fn lemma_project_list_keys_isolated(a: u128, b: u128)
    requires
        project_list_key(a) == project_list_key(b),
    ensures
        a == b,
{
    let p = "project_list:"@;
    assert(uuid_text(a) =~= project_list_key(a).subrange(p.len() as int, project_list_key(a).len() as int));
    assert(uuid_text(b) =~= project_list_key(b).subrange(p.len() as int, project_list_key(b).len() as int));
    lemma_uuid_text_injective(a, b);
}

/// The outcome of a cache read: the decoded value on a hit, nothing on a
/// miss, and an `InternalServerError` when the stored text does not decode.
pub fn cache_lookup_outcome<T>(read: Option<Result<T, ()>>) -> (r: Result<Option<T>, ApiError>)
    ensures
        match read {
            Some(Ok(v)) => r == Ok::<Option<T>, ApiError>(Some(v)),
            Some(Err(_)) => r == Err::<Option<T>, ApiError>(ApiError::InternalServerError),
            None => r == Ok::<Option<T>, ApiError>(None),
        },
{
    match read {
        Some(Ok(v)) => Ok(Some(v)),
        Some(Err(_)) => Err(ApiError::InternalServerError),
        None => Ok(None),
    }
}

// ---------------------------------------------------------------------------
// Listing: read the cache, fall back to the store, fill the cache.

/// Where a listing stands.
#[derive(Debug, Clone, Copy, PartialEq, Eq)]
pub enum ListStage {
    /// Waiting for the cache lookup.
    ReadingCache,
    /// The cache missed; waiting for the store's list.
    QueryingStore,
    /// Waiting for the fresh list to be written to the cache.
    FillingCache,
    /// The listing has answered.
    Done,
}

/// What the caller does next for a listing.
#[derive(Debug)]
pub enum ListAction {
    /// Look the key up in the cache.
    ReadCache { key: String },
    /// The cache missed: list the tenant's projects from the store.
    QueryStore,
    /// Store the fresh list under `key` for `ttl_secs` seconds.
    WriteCache { key: String, ttl_secs: u64 },
    /// Answer with the list found in the cache.
    RespondCached,
    /// Answer with the list read from the store.
    RespondFresh,
    /// Answer with an error.
    Fail(ApiError),
}

/// What came of the last action of a listing.
#[derive(Debug)]
pub enum ListEvent {
    /// The cache lookup: whether a decodable list was found, or the failure.
    CacheRead(Result<bool, ApiError>),
    /// The store's list was read, or the failure.
    StoreListed(Result<(), ApiError>),
    /// The cache write completed, or the failure.
    CacheWritten(Result<(), ApiError>),
}

/// The mathematical form of a listing action.
pub enum ListActionSpec {
    ReadCache { key: Seq<char> },
    QueryStore,
    WriteCache { key: Seq<char>, ttl_secs: u64 },
    RespondCached,
    RespondFresh,
    Fail(ApiError),
}

impl View for ListAction {
    type V = ListActionSpec;

    open spec fn view(&self) -> ListActionSpec {
        match self {
            ListAction::ReadCache { key } => ListActionSpec::ReadCache { key: key@ },
            ListAction::QueryStore => ListActionSpec::QueryStore,
            ListAction::WriteCache { key, ttl_secs } => ListActionSpec::WriteCache {
                key: key@,
                ttl_secs: *ttl_secs,
            },
            ListAction::RespondCached => ListActionSpec::RespondCached,
            ListAction::RespondFresh => ListActionSpec::RespondFresh,
            ListAction::Fail(e) => ListActionSpec::Fail(*e),
        }
    }
}

/// The event a listing waits for in each stage.
pub open spec fn list_expects(stage: ListStage, event: ListEvent) -> bool {
    match stage {
        ListStage::ReadingCache => event is CacheRead,
        ListStage::QueryingStore => event is StoreListed,
        ListStage::FillingCache => event is CacheWritten,
        ListStage::Done => false,
    }
}

/// One transition of a listing: the next stage and the next action.
pub open spec fn list_next(tenant_id: u128, stage: ListStage, event: ListEvent) -> (ListStage, ListActionSpec) {
    match event {
        ListEvent::CacheRead(Ok(true)) => (ListStage::Done, ListActionSpec::RespondCached),
        ListEvent::CacheRead(Ok(false)) => (ListStage::QueryingStore, ListActionSpec::QueryStore),
        ListEvent::StoreListed(Ok(())) => (
            ListStage::FillingCache,
            ListActionSpec::WriteCache { key: project_list_key(tenant_id), ttl_secs: 300 },
        ),
        ListEvent::CacheWritten(Ok(())) => (ListStage::Done, ListActionSpec::RespondFresh),
        ListEvent::CacheRead(Err(e)) => (ListStage::Done, ListActionSpec::Fail(e)),
        ListEvent::StoreListed(Err(e)) => (ListStage::Done, ListActionSpec::Fail(e)),
        ListEvent::CacheWritten(Err(e)) => (ListStage::Done, ListActionSpec::Fail(e)),
    }
}

/// A cache-aside listing of one tenant's projects.
pub struct ProjectListing {
    tenant_id: u128,
    stage: ListStage,
}

impl ProjectListing {
    pub closed spec fn tenant(&self) -> u128 {
        self.tenant_id
    }

    pub closed spec fn stage(&self) -> ListStage {
        self.stage
    }

    /// Starts a listing for a tenant: the first action reads the tenant's key.
    pub fn start(tenant_id: u128) -> (r: (ProjectListing, ListAction))
        ensures
            r.0.tenant() == tenant_id,
            r.0.stage() == ListStage::ReadingCache,
            r.1@ == (ListActionSpec::ReadCache { key: project_list_key(tenant_id) }),
    {
        let key = project_list_cache_key(tenant_id);
        (ProjectListing { tenant_id, stage: ListStage::ReadingCache }, ListAction::ReadCache { key })
    }

    /// Takes what came of the last action and says what to do next.
    pub fn step(&mut self, event: ListEvent) -> (action: ListAction)
        requires
            list_expects(old(self).stage(), event),
        ensures
            final(self).tenant() == old(self).tenant(),
            (final(self).stage(), action@) == list_next(old(self).tenant(), old(self).stage(), event),
    {
        match event {
            ListEvent::CacheRead(Ok(true)) => {
                self.stage = ListStage::Done;
                ListAction::RespondCached
            },
            ListEvent::CacheRead(Ok(false)) => {
                self.stage = ListStage::QueryingStore;
                ListAction::QueryStore
            },
            ListEvent::StoreListed(Ok(())) => {
                self.stage = ListStage::FillingCache;
                let key = project_list_cache_key(self.tenant_id);
                ListAction::WriteCache { key, ttl_secs: PROJECT_LIST_TTL_SECS }
            },
            ListEvent::CacheWritten(Ok(())) => {
                self.stage = ListStage::Done;
                ListAction::RespondFresh
            },
            ListEvent::CacheRead(Err(e)) => {
                self.stage = ListStage::Done;
                ListAction::Fail(e)
            },
            ListEvent::StoreListed(Err(e)) => {
                self.stage = ListStage::Done;
                ListAction::Fail(e)
            },
            ListEvent::CacheWritten(Err(e)) => {
                self.stage = ListStage::Done;
                ListAction::Fail(e)
            },
        }
    }
}

// ---------------------------------------------------------------------------
// Writing: change the store, then drop the tenant's cached list.

/// Where a project write stands.
#[derive(Debug, Clone, Copy, PartialEq, Eq)]
pub enum WriteStage {
    /// Waiting for the store write (create or delete).
    Writing,
    /// Waiting for the cached list to be dropped.
    Invalidating,
    /// The write has answered.
    Done,
}

/// What the caller does next for a project write.
#[derive(Debug)]
pub enum WriteAction {
    /// Perform the store write.
    Write,
    /// Delete the cache entry `key`.
    Invalidate { key: String },
    /// Answer with the written result.
    Respond,
    /// Answer with an error.
    Fail(ApiError),
}

/// What came of the last action of a project write.
#[derive(Debug)]
pub enum WriteEvent {
    /// The store write succeeded, or its failure.
    Written(Result<(), ApiError>),
    /// The cache entry was deleted, or the failure.
    Invalidated(Result<(), ApiError>),
}

/// The mathematical form of a write action.
pub enum WriteActionSpec {
    Write,
    Invalidate { key: Seq<char> },
    Respond,
    Fail(ApiError),
}

impl View for WriteAction {
    type V = WriteActionSpec;

    open spec fn view(&self) -> WriteActionSpec {
        match self {
            WriteAction::Write => WriteActionSpec::Write,
            WriteAction::Invalidate { key } => WriteActionSpec::Invalidate { key: key@ },
            WriteAction::Respond => WriteActionSpec::Respond,
            WriteAction::Fail(e) => WriteActionSpec::Fail(*e),
        }
    }
}

/// The event a project write waits for in each stage.
pub open spec fn write_expects(stage: WriteStage, event: WriteEvent) -> bool {
    match stage {
        WriteStage::Writing => event is Written,
        WriteStage::Invalidating => event is Invalidated,
        WriteStage::Done => false,
    }
}

/// One transition of a project write.
pub open spec fn write_next(tenant_id: u128, stage: WriteStage, event: WriteEvent) -> (WriteStage, WriteActionSpec) {
    match event {
        WriteEvent::Written(Ok(())) => (
            WriteStage::Invalidating,
            WriteActionSpec::Invalidate { key: project_list_key(tenant_id) },
        ),
        WriteEvent::Invalidated(Ok(())) => (WriteStage::Done, WriteActionSpec::Respond),
        WriteEvent::Written(Err(e)) => (WriteStage::Done, WriteActionSpec::Fail(e)),
        WriteEvent::Invalidated(Err(e)) => (WriteStage::Done, WriteActionSpec::Fail(e)),
    }
}

/// A create or delete of one of a tenant's projects, followed by the
/// invalidation of the tenant's cached project list.
pub struct ProjectWrite {
    tenant_id: u128,
    stage: WriteStage,
}

impl ProjectWrite {
    pub closed spec fn tenant(&self) -> u128 {
        self.tenant_id
    }

    pub closed spec fn stage(&self) -> WriteStage {
        self.stage
    }

    /// Starts a project write for a tenant: the first action is the store write.
    pub fn start(tenant_id: u128) -> (r: (ProjectWrite, WriteAction))
        ensures
            r.0.tenant() == tenant_id,
            r.0.stage() == WriteStage::Writing,
            r.1@ == WriteActionSpec::Write,
    {
        (ProjectWrite { tenant_id, stage: WriteStage::Writing }, WriteAction::Write)
    }

    /// Takes what came of the last action and says what to do next.
    pub fn step(&mut self, event: WriteEvent) -> (action: WriteAction)
        requires
            write_expects(old(self).stage(), event),
        ensures
            final(self).tenant() == old(self).tenant(),
            (final(self).stage(), action@) == write_next(old(self).tenant(), old(self).stage(), event),
    {
        match event {
            WriteEvent::Written(Ok(())) => {
                self.stage = WriteStage::Invalidating;
                let key = project_list_cache_key(self.tenant_id);
                WriteAction::Invalidate { key }
            },
            WriteEvent::Invalidated(Ok(())) => {
                self.stage = WriteStage::Done;
                WriteAction::Respond
            },
            WriteEvent::Written(Err(e)) => {
                self.stage = WriteStage::Done;
                WriteAction::Fail(e)
            },
            WriteEvent::Invalidated(Err(e)) => {
                self.stage = WriteStage::Done;
                WriteAction::Fail(e)
            },
        }
    }
}

// ---------------------------------------------------------------------------
// Laws of the cache.

/// Cache-aside: the store is read only when the cache missed; only a list
/// freshly read from the store is cached, under the tenant's own key and for
/// the fixed time; a cached answer is given only on a hit, and a fresh one
/// only once the cache has been filled.
pub proof fn lemma_cache_aside(tenant_id: u128, stage: ListStage, event: ListEvent)
    requires
        list_expects(stage, event),
    ensures
        ({
            let (next, action) = list_next(tenant_id, stage, event);
            &&& (action is QueryStore <==> event matches ListEvent::CacheRead(Ok(false)))
            &&& (action is RespondCached <==> event matches ListEvent::CacheRead(Ok(true)))
            &&& (action is WriteCache ==> (event matches ListEvent::StoreListed(Ok(_)) && action == (
            ListActionSpec::WriteCache { key: project_list_key(tenant_id), ttl_secs: 300 })))
            &&& (action is RespondFresh ==> (stage == ListStage::FillingCache && event matches ListEvent::CacheWritten(
                Ok(_),
            )))
            &&& (action is Fail ==> next == ListStage::Done)
        }),
{
}

/// Every project write drops exactly the entry that the tenant's listing
/// reads and fills, and only after the store write succeeded; the write
/// answers with success only after the entry is gone.
pub proof fn lemma_writes_invalidate_the_listing(tenant_id: u128, stage: WriteStage, event: WriteEvent)
    requires
        write_expects(stage, event),
    ensures
        ({
            let (next, action) = write_next(tenant_id, stage, event);
            &&& (action is Invalidate <==> event matches WriteEvent::Written(Ok(_)))
            &&& (action matches WriteActionSpec::Invalidate { key } ==> key == project_list_key(tenant_id))
            &&& (action is Respond <==> event matches WriteEvent::Invalidated(Ok(_)))
        }),
        list_next(tenant_id, ListStage::QueryingStore, ListEvent::StoreListed(Ok(()))).1 == (
        ListActionSpec::WriteCache { key: project_list_key(tenant_id), ttl_secs: 300 }),
{
}

// ---------------------------------------------------------------------------
// The cache holds no stale list: a model of the store and the cache.
//
// Requests are handled one at a time. A listing changes the cache only by
// filling the tenant's key with the list it just read from the store (see
// `lemma_cache_aside`); a project write that answers with success has
// changed only its tenant's projects and then dropped that tenant's key
// (see `lemma_writes_invalidate_the_listing`); the cache may also forget
// any entry when its time runs out.

/// The contents of the store (each tenant's project list) and of the cache.
pub struct CacheWorld<V> {
    pub store: spec_fn(u128) -> V,
    pub cache: Map<Seq<char>, V>,
}

/// What can happen to the store and the cache.
pub enum CacheOp<V> {
    /// A listing fills the tenant's key with the tenant's current list.
    Fill(u128),
    /// The cache forgets an entry.
    Expire(Seq<char>),
    /// A project write replaces the tenant's list in the store.
    StoreWrite(u128, V),
    /// A project write drops the tenant's key.
    Invalidate(u128),
}

/// The effect of one operation.
pub open spec fn apply_op<V>(w: CacheWorld<V>, op: CacheOp<V>) -> CacheWorld<V> {
    match op {
        CacheOp::Fill(t) => CacheWorld { store: w.store, cache: w.cache.insert(project_list_key(t), (w.store)(t)) },
        CacheOp::Expire(k) => CacheWorld { store: w.store, cache: w.cache.remove(k) },
        CacheOp::StoreWrite(t, v) => CacheWorld {
            store: |u: u128| if u == t { v } else { (w.store)(u) },
            cache: w.cache,
        },
        CacheOp::Invalidate(t) => CacheWorld { store: w.store, cache: w.cache.remove(project_list_key(t)) },
    }
}

/// The effect of a sequence of operations, first to last.
pub open spec fn apply_ops<V>(w: CacheWorld<V>, ops: Seq<CacheOp<V>>) -> CacheWorld<V>
    decreases ops.len(),
{
    if ops.len() == 0 {
        w
    } else {
        apply_ops(apply_op(w, ops[0]), ops.drop_first())
    }
}

/// Every store write is directly followed by the invalidation of the same
/// tenant's key, as a project write that answers with success does it.
pub open spec fn writes_invalidated<V>(ops: Seq<CacheOp<V>>) -> bool {
    forall|i: int|
        #![trigger ops[i]]
        0 <= i < ops.len() && ops[i] is StoreWrite ==> i + 1 < ops.len() && ops[i + 1] == CacheOp::<V>::Invalidate(
            ops[i]->StoreWrite_0,
        )
}

/// Every tenant's cache entry is either absent or the tenant's current list.
pub open spec fn cache_consistent<V>(w: CacheWorld<V>) -> bool {
    forall|t: u128| #[trigger] w.cache.contains_key(project_list_key(t)) ==> w.cache[project_list_key(t)] == (w.store)(t)
}

proof fn lemma_fill_keeps_consistency<V>(w: CacheWorld<V>, t: u128)
    requires
        cache_consistent(w),
    ensures
        cache_consistent(apply_op(w, CacheOp::Fill(t))),
{
    let w2 = apply_op(w, CacheOp::Fill(t));
    assert forall|u: u128| #[trigger] w2.cache.contains_key(project_list_key(u)) implies w2.cache[project_list_key(u)]
        == (w2.store)(u) by {
        if project_list_key(u) == project_list_key(t) {
            lemma_project_list_keys_isolated(u, t);
        } else {
            assert(w.cache.contains_key(project_list_key(u)));
        }
    }
}

proof fn lemma_write_then_invalidate_keeps_consistency<V>(w: CacheWorld<V>, t: u128, v: V)
    requires
        cache_consistent(w),
    ensures
        cache_consistent(apply_op(apply_op(w, CacheOp::StoreWrite(t, v)), CacheOp::Invalidate(t))),
{
    let w2 = apply_op(apply_op(w, CacheOp::StoreWrite(t, v)), CacheOp::Invalidate(t));
    assert forall|u: u128| #[trigger] w2.cache.contains_key(project_list_key(u)) implies w2.cache[project_list_key(u)]
        == (w2.store)(u) by {
        assert(project_list_key(u) != project_list_key(t));
        assert(u != t);
        assert(w.cache.contains_key(project_list_key(u)));
    }
}

/// Across any sequence of listings, expiries and project writes that each
/// drop the written tenant's key, the cache never holds a stale list: each
/// tenant's entry is absent or that tenant's current list. Since the
/// listing answers a hit with this entry, it answers with the tenant's
/// current list, and never with another tenant's.
pub proof fn lemma_cache_never_stale<V>(w: CacheWorld<V>, ops: Seq<CacheOp<V>>)
    requires
        cache_consistent(w),
        writes_invalidated(ops),
    ensures
        cache_consistent(apply_ops(w, ops)),
    decreases ops.len(),
{
    if ops.len() > 0 {
        let op = ops[0];
        match op {
            CacheOp::StoreWrite(t, v) => {
                assert(ops[1] == CacheOp::<V>::Invalidate(t));
                lemma_write_then_invalidate_keeps_consistency(w, t, v);
                let rest = ops.drop_first();
                let w1 = apply_op(w, op);
                assert(apply_ops(w1, rest) == apply_ops(apply_op(w1, rest[0]), rest.drop_first()));
                let tail = rest.drop_first();
                assert forall|i: int|
                    #![trigger tail[i]]
                    0 <= i < tail.len() && tail[i] is StoreWrite implies i + 1 < tail.len() && tail[i + 1]
                        == CacheOp::<V>::Invalidate(tail[i]->StoreWrite_0) by {
                    assert(tail[i] == ops[i + 2]);
                    assert(tail[i + 1] == ops[i + 3]);
                }
                lemma_cache_never_stale(apply_op(w1, rest[0]), tail);
            },
            _ => {
                if let CacheOp::Fill(t) = op {
                    lemma_fill_keeps_consistency(w, t);
                }
                let rest = ops.drop_first();
                assert forall|i: int|
                    #![trigger rest[i]]
                    0 <= i < rest.len() && rest[i] is StoreWrite implies i + 1 < rest.len() && rest[i + 1]
                        == CacheOp::<V>::Invalidate(rest[i]->StoreWrite_0) by {
                    assert(rest[i] == ops[i + 1]);
                    assert(rest[i + 1] == ops[i + 2]);
                }
                lemma_cache_never_stale(apply_op(w, op), rest);
            },
        }
    }
}

/// In a consistent cache, the entry a listing finds for a tenant is that
/// tenant's current list.
pub proof fn lemma_hit_is_current<V>(w: CacheWorld<V>, t: u128)
    requires
        cache_consistent(w),
        w.cache.contains_key(project_list_key(t)),
    ensures
        w.cache[project_list_key(t)] == (w.store)(t),
{
}

} // verus!
