//! Verified core of a multi-tenant SaaS backend: request validation,
//! tenant-scoped transaction protocol, cache-aside project listing,
//! dynamic task search queries and the background job worker.

pub mod error;
pub mod ids;
pub mod cache;
pub mod outcome;
pub mod validation;
pub mod task_query;
pub mod tenant;
pub mod tx;
pub mod worker;
