use saas_backend::cache::{
    project_list_cache_key, ListAction, ListEvent, ProjectListing, ProjectWrite, WriteAction, WriteEvent,
};
use saas_backend::error::ApiError;
use saas_backend::tenant::{on_tenant_header, on_tenant_lookup, tenant_header_name, TenantAction, TenantContext};
use saas_backend::tx::{TenantTransaction, TxAction, TxEvent};

const T: u128 = 0x00000000_0000_0000_0000_00000000002a;

#[test]
fn listing_hit_answers_from_cache() {
    let (mut l, a) = ProjectListing::start(T);
    match a {
        ListAction::ReadCache { key } => assert_eq!(key, project_list_cache_key(T)),
        other => panic!("unexpected {:?}", other),
    }
    assert!(matches!(l.step(ListEvent::CacheRead(Ok(true))), ListAction::RespondCached));
}

#[test]
fn listing_miss_reads_store_then_fills_cache() {
    let (mut l, _) = ProjectListing::start(T);
    assert!(matches!(l.step(ListEvent::CacheRead(Ok(false))), ListAction::QueryStore));
    match l.step(ListEvent::StoreListed(Ok(()))) {
        ListAction::WriteCache { key, ttl_secs } => {
            assert_eq!(key, "project_list:00000000-0000-0000-0000-00000000002a");
            assert_eq!(ttl_secs, 300);
        }
        other => panic!("unexpected {:?}", other),
    }
    assert!(matches!(l.step(ListEvent::CacheWritten(Ok(()))), ListAction::RespondFresh));
}

#[test]
fn listing_cache_error_fails_without_store() {
    let (mut l, _) = ProjectListing::start(T);
    match l.step(ListEvent::CacheRead(Err(ApiError::InternalServerError))) {
        ListAction::Fail(e) => assert_eq!(e, ApiError::InternalServerError),
        other => panic!("unexpected {:?}", other),
    }
}

#[test]
fn listing_store_error_is_not_cached() {
    let (mut l, _) = ProjectListing::start(T);
    l.step(ListEvent::CacheRead(Ok(false)));
    match l.step(ListEvent::StoreListed(Err(ApiError::NotFound))) {
        ListAction::Fail(e) => assert_eq!(e, ApiError::NotFound),
        other => panic!("unexpected {:?}", other),
    }
}

#[test]
fn write_then_invalidate_then_respond() {
    let (mut w, a) = ProjectWrite::start(T);
    assert!(matches!(a, WriteAction::Write));
    match w.step(WriteEvent::Written(Ok(()))) {
        WriteAction::Invalidate { key } => assert_eq!(key, project_list_cache_key(T)),
        other => panic!("unexpected {:?}", other),
    }
    assert!(matches!(w.step(WriteEvent::Invalidated(Ok(()))), WriteAction::Respond));
}

#[test]
fn failed_write_does_not_invalidate() {
    let (mut w, _) = ProjectWrite::start(T);
    match w.step(WriteEvent::Written(Err(ApiError::NotFound))) {
        WriteAction::Fail(e) => assert_eq!(e, ApiError::NotFound),
        other => panic!("unexpected {:?}", other),
    }
}

#[test]
fn failed_invalidation_fails_the_write() {
    let (mut w, _) = ProjectWrite::start(T);
    w.step(WriteEvent::Written(Ok(())));
    assert!(matches!(
        w.step(WriteEvent::Invalidated(Err(ApiError::InternalServerError))),
        WriteAction::Fail(ApiError::InternalServerError)
    ));
}

#[test]
fn transaction_success_path() {
    let (mut t, a) = TenantTransaction::start(T);
    assert!(matches!(a, TxAction::Begin));
    match t.step(TxEvent::Begun(Ok(()))) {
        TxAction::SetTenant { sql, value } => {
            assert_eq!(sql, "SELECT set_config('app.current_tenant', $1, true)");
            assert_eq!(value, "00000000-0000-0000-0000-00000000002a");
        }
        other => panic!("unexpected {:?}", other),
    }
    assert!(matches!(t.step(TxEvent::TenantSet(Ok(()))), TxAction::RunBody));
    assert!(matches!(t.step(TxEvent::BodyDone(Ok(()))), TxAction::Commit));
    assert!(matches!(t.step(TxEvent::Committed(Ok(()))), TxAction::Succeed));
}

#[test]
fn transaction_body_error_is_returned_without_commit() {
    let (mut t, _) = TenantTransaction::start(T);
    t.step(TxEvent::Begun(Ok(())));
    t.step(TxEvent::TenantSet(Ok(())));
    match t.step(TxEvent::BodyDone(Err(ApiError::Conflict("c".to_string())))) {
        TxAction::Fail(e) => assert_eq!(e, ApiError::Conflict("c".to_string())),
        other => panic!("unexpected {:?}", other),
    }
}

#[test]
fn transaction_does_not_run_body_if_tenant_not_set() {
    let (mut t, _) = TenantTransaction::start(T);
    t.step(TxEvent::Begun(Ok(())));
    assert!(matches!(
        t.step(TxEvent::TenantSet(Err(ApiError::InternalServerError))),
        TxAction::Fail(ApiError::InternalServerError)
    ));
}

#[test]
fn transaction_begin_and_commit_failures() {
    let (mut t, _) = TenantTransaction::start(T);
    assert!(matches!(t.step(TxEvent::Begun(Err(ApiError::InternalServerError))), TxAction::Fail(_)));
    let (mut t, _) = TenantTransaction::start(T);
    t.step(TxEvent::Begun(Ok(())));
    t.step(TxEvent::TenantSet(Ok(())));
    t.step(TxEvent::BodyDone(Ok(())));
    assert!(matches!(t.step(TxEvent::Committed(Err(ApiError::InternalServerError))), TxAction::Fail(_)));
}

#[test]
fn header_name() {
    assert_eq!(tenant_header_name(), "X-Tenant-Slug");
}

#[test]
fn missing_header_is_bad_request() {
    match on_tenant_header(None) {
        TenantAction::Reject(e) => assert_eq!(e, ApiError::BadRequest("Missing X-Tenant-Slug".to_string())),
        other => panic!("unexpected {:?}", other),
    }
}

#[test]
fn header_slug_is_looked_up() {
    match on_tenant_header(Some("acme".to_string())) {
        TenantAction::LookupTenant { slug } => assert_eq!(slug, "acme"),
        other => panic!("unexpected {:?}", other),
    }
}

#[test]
fn found_tenant_is_attached() {
    match on_tenant_lookup(Ok(T)) {
        TenantAction::Proceed(ctx) => assert_eq!(ctx, TenantContext { tenant_id: T }),
        other => panic!("unexpected {:?}", other),
    }
}

#[test]
fn unknown_tenant_is_not_found() {
    match on_tenant_lookup(Err(ApiError::NotFound)) {
        TenantAction::Reject(e) => assert_eq!(e, ApiError::NotFound),
        other => panic!("unexpected {:?}", other),
    }
}

/// Drives a listing against an in-memory cache and store; returns the answer.
fn run_listing(cache: &mut std::collections::HashMap<String, Vec<u32>>, store: &Vec<u32>, tenant: u128) -> Vec<u32> {
    let (mut l, mut action) = ProjectListing::start(tenant);
    let mut read: Option<Vec<u32>> = None;
    loop {
        action = match action {
            ListAction::ReadCache { key } => {
                read = cache.get(&key).cloned();
                l.step(ListEvent::CacheRead(Ok(read.is_some())))
            }
            ListAction::QueryStore => l.step(ListEvent::StoreListed(Ok(()))),
            ListAction::WriteCache { key, .. } => {
                cache.insert(key, store.clone());
                l.step(ListEvent::CacheWritten(Ok(())))
            }
            ListAction::RespondCached => return read.unwrap(),
            ListAction::RespondFresh => return store.clone(),
            ListAction::Fail(e) => panic!("unexpected {:?}", e),
        };
    }
}

#[test]
fn listing_after_a_write_sees_the_new_list() {
    let mut cache = std::collections::HashMap::new();
    let mut store = vec![1, 2];
    assert_eq!(run_listing(&mut cache, &store, T), vec![1, 2]);
    assert_eq!(run_listing(&mut cache, &store, T), vec![1, 2]);
    let (mut w, mut action) = ProjectWrite::start(T);
    loop {
        action = match action {
            WriteAction::Write => {
                store.push(3);
                w.step(WriteEvent::Written(Ok(())))
            }
            WriteAction::Invalidate { key } => {
                cache.remove(&key);
                w.step(WriteEvent::Invalidated(Ok(())))
            }
            WriteAction::Respond => break,
            WriteAction::Fail(e) => panic!("unexpected {:?}", e),
        };
    }
    assert_eq!(run_listing(&mut cache, &store, T), vec![1, 2, 3]);
    let other: Vec<u32> = vec![9];
    assert_eq!(run_listing(&mut cache, &other, T + 1), vec![9]);
    assert_eq!(run_listing(&mut cache, &store, T), vec![1, 2, 3]);
}
