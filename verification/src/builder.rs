//! The stack builder protocol: two inverse capabilities that let a stack be
//! written in builder order while it executes in wrap order.
//!
//! `AppendMiddleware` is implemented by things that already form a stack ("I
//! have a stack; attach this middleware to its outward end"), and
//! `PrependMiddleware` by things that can wrap an existing stack with
//! themselves. `use_middleware` calls accumulate so that the first-appended
//! middleware ends up innermost, closest to the application, and each
//! subsequent call wraps everything built so far.

use vstd::prelude::*;

verus! {

/// A stack's capability to take one more middleware on its outward end.
pub trait AppendMiddleware<Next>: Sized {
    type Middleware;

    /// What it means for `r` to be this stack with `next` attached outermost.
    spec fn appended(self, next: Next, r: Self::Middleware) -> bool;

    fn use_middleware(self, next: Next) -> (r: Self::Middleware)
        ensures
            self.appended(next, r),
    ;
}

/// A middleware's capability to wrap an existing stack with itself.
pub trait PrependMiddleware<Other>: Sized {
    type Middleware;

    /// What it means for `r` to be `self` wrapped around `other`.
    spec fn prepended(self, other: Other, r: Self::Middleware) -> bool;

    fn prepend_to(self, other: Other) -> (r: Self::Middleware)
        ensures
            self.prepended(other, r),
    ;
}

} // verus!
