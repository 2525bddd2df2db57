# saas_backend

The verified core of a multi-tenant SaaS backend (tenants, users, projects,
tasks and background jobs over PostgreSQL with row-level security, and a
Redis cache), written in Verus.

- `src/` is the library. Every decision the backend takes is a verified
  function with a contract: request validation (`validation`), the
  tenant-scoped transaction protocol (`tx`), resolution of the calling tenant
  (`tenant`), cache-aside listing and invalidation of a tenant's projects
  (`cache`), the dynamic task search query (`task_query`), the reading of
  store answers (`outcome`), the job worker's polling loop (`worker`),
  identifier text (`ids`) and the error type (`error`). The long-running
  flows are state machines: the caller performs each action and feeds back
  what came of it.
- `app/` is the HTTP server (axum), the PostgreSQL and Redis calls, and the
  loops that drive the library's state machines.
- `tests/` runs the library on concrete values.
