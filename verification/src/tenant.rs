//! Resolution of the calling tenant for the protected routes: the tenant is
//! named by the `X-Tenant-Slug` header, looked up by slug, and its id is
//! attached to the request for every handler behind it.

use vstd::prelude::*;
use vstd::string::*;
use crate::error::ApiError;

verus! {

/// The tenant a protected request acts for.
#[derive(Debug, Clone, Copy, PartialEq, Eq)]
pub struct TenantContext {
    pub tenant_id: u128,
}

/// The name of the header that carries the tenant's slug.
pub fn tenant_header_name() -> (name: &'static str)
    ensures
        name@ == "X-Tenant-Slug"@,
{
    "X-Tenant-Slug"
}

/// The message answered when the tenant header is absent or unreadable.
pub open spec fn missing_tenant_message() -> Seq<char> {
    "Missing X-Tenant-Slug"@
}

/// What the tenant check in front of the protected routes does next.
#[derive(Debug)]
pub enum TenantAction {
    /// Look up the tenant with this slug.
    LookupTenant { slug: String },
    /// Let the request through, acting for this tenant.
    Proceed(TenantContext),
    /// Answer the request with this error; no handler runs.
    Reject(ApiError),
}

/// Decides on the header: a request without a readable tenant header is
/// rejected with `BadRequest`; otherwise its slug is looked up.
pub fn on_tenant_header(header: Option<String>) -> (action: TenantAction)
    ensures
        match header {
            Some(slug) => action matches TenantAction::LookupTenant { slug: s } && s@ == slug@,
            None => action matches TenantAction::Reject(ApiError::BadRequest(m)) && m@
                == missing_tenant_message(),
        },
{
    match header {
        Some(slug) => TenantAction::LookupTenant { slug },
        None => TenantAction::Reject(ApiError::BadRequest(String::from_str("Missing X-Tenant-Slug"))),
    }
}

/// Decides on the lookup: the request proceeds acting for exactly the tenant
/// found; if the lookup failed (no such slug: `NotFound`), it is rejected
/// with the lookup's error.
pub fn on_tenant_lookup(found: Result<u128, ApiError>) -> (action: TenantAction)
    ensures
        match found {
            Ok(id) => action matches TenantAction::Proceed(ctx) && ctx.tenant_id == id,
            Err(e) => action matches TenantAction::Reject(r) && r == e,
        },
{
    match found {
        Ok(id) => TenantAction::Proceed(TenantContext { tenant_id: id }),
        Err(e) => TenantAction::Reject(e),
    }
}

} // verus!
