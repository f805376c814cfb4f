//! A compile-time composable middleware pipeline for asynchronous
//! request/response services.
//!
//! A base application service is wrapped by an ordered chain of middleware
//! components. Middleware are appended in builder order
//! (`app.use_middleware(a).use_middleware(b)`), while execution nests them in
//! wrap order: the last-appended middleware is outermost, so its `before`
//! hook runs first on the way in and its `after` hook runs last on the way
//! out. Responses are produced asynchronously, and each middleware's `after`
//! hook is applied by a statically-typed continuation once the inner
//! computation resolves.

pub mod asynch;
pub mod builder;
pub mod example;
pub mod http;
pub mod laws;
pub mod log_run_time;
pub mod middleware;
pub mod providers;
pub mod service;
