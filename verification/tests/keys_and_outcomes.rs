use saas_backend::cache::{cache_lookup_outcome, project_list_cache_key};
use saas_backend::error::ApiError;
use saas_backend::outcome::{require_current_version, require_deleted, require_found};

const TENANT_A: u128 = 0x0123_4567_89ab_cdef_0123_4567_89ab_cdef;
const TENANT_B: u128 = 0x0123_4567_89ab_cdef_0123_4567_89ab_cdee;

#[test]
fn cache_key_uses_hyphenated_lowercase_id() {
    assert_eq!(
        project_list_cache_key(TENANT_A),
        "project_list:01234567-89ab-cdef-0123-456789abcdef"
    );
}

#[test]
fn cache_key_of_zero_id() {
    assert_eq!(
        project_list_cache_key(0),
        "project_list:00000000-0000-0000-0000-000000000000"
    );
}

#[test]
fn cache_key_of_max_id() {
    assert_eq!(
        project_list_cache_key(u128::MAX),
        "project_list:ffffffff-ffff-ffff-ffff-ffffffffffff"
    );
}

#[test]
fn cache_keys_of_distinct_tenants_differ() {
    assert_ne!(project_list_cache_key(TENANT_A), project_list_cache_key(TENANT_B));
}

#[test]
fn found_row_is_returned() {
    assert_eq!(require_found(Some(7)), Ok(7));
}

#[test]
fn missing_row_is_not_found() {
    assert_eq!(require_found::<i32>(None), Err(ApiError::NotFound));
}

#[test]
fn delete_of_nothing_is_not_found() {
    assert_eq!(require_deleted(0), Err(ApiError::NotFound));
    assert_eq!(require_deleted(1), Ok(()));
    assert_eq!(require_deleted(3), Ok(()));
}

#[test]
fn stale_version_is_conflict() {
    assert_eq!(
        require_current_version::<i32>(None),
        Err(ApiError::Conflict("task was modified by another user".to_string()))
    );
    assert_eq!(require_current_version(Some("row")), Ok("row"));
}

#[test]
fn status_codes() {
    assert_eq!(ApiError::NotFound.status_code(), 404);
    assert_eq!(ApiError::InternalServerError.status_code(), 500);
    assert_eq!(ApiError::BadRequest("x".to_string()).status_code(), 400);
    assert_eq!(ApiError::Conflict("x".to_string()).status_code(), 409);
}

#[test]
fn cache_lookup_outcomes() {
    assert_eq!(cache_lookup_outcome(Some(Ok(3))), Ok(Some(3)));
    assert_eq!(cache_lookup_outcome::<i32>(Some(Err(()))), Err(ApiError::InternalServerError));
    assert_eq!(cache_lookup_outcome::<i32>(None), Ok(None));
}

#[test]
fn error_messages() {
    assert_eq!(ApiError::NotFound.message(), "Not found");
    assert_eq!(ApiError::InternalServerError.message(), "Internal server error");
    assert_eq!(ApiError::BadRequest("bad".to_string()).message(), "bad");
    assert_eq!(ApiError::Conflict("late".to_string()).message(), "late");
}
