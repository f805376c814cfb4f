//! The asynchronous completion model of the pipeline.
//!
//! A response is not produced immediately: `Service::call` hands back an
//! asynchronous computation which an external executor drives by repeated
//! non-blocking scheduling steps (`poll`). The model of such a computation is
//! its `outcome`: the response or error it is still going to deliver, or
//! `None` once the value has been handed out.

use vstd::prelude::*;

verus! {

/// Result of one scheduling step: the value is available now, or the caller
/// must poll again on a later step.
pub enum Async<T> {
    Ready(T),
    NotReady,
}

/// What one `poll` reports: readiness of the value, or failure of the
/// computation.
pub type Poll<T, E> = Result<Async<T>, E>;

/// The view of a `Result`, taken componentwise.
pub open spec fn result_view<T: View, E: View>(r: Result<T, E>) -> Result<T::V, E::V> {
    match r {
        Ok(t) => Ok(t@),
        Err(e) => Err(e@),
    }
}

/// An asynchronous computation that eventually delivers a value or fails.
///
/// `outcome` is the abstract destiny of the computation: `Some(Ok(v))` or
/// `Some(Err(e))` while the value is still owed, `None` once a `poll` has
/// delivered it. A pending step (`NotReady`) never changes the destiny, and
/// the value finally delivered is exactly the one that was owed.
pub trait AsyncComputation: Sized {
    type Item: View;
    type Error: View;

    /// The value this computation still owes its caller, if any.
    spec fn outcome(&self) -> Option<
        Result<<Self::Item as View>::V, <Self::Error as View>::V>,
    >;

    /// Whether the next scheduling step may still report pending. A
    /// computation for which this is false owes delivery on the very next
    /// poll; one driven by work outside the model answers true.
    spec fn may_stall(&self) -> bool;

    /// One non-blocking scheduling step. Must not be called again once the
    /// outcome has been delivered.
    fn poll(&mut self) -> (r: Poll<Self::Item, Self::Error>)
        requires
            old(self).outcome() is Some,
        ensures
            (r matches Ok(Async::NotReady)) ==> old(self).may_stall(),
            match r {
                Ok(Async::Ready(v)) => old(self).outcome() == Some(
                    Ok::<<Self::Item as View>::V, <Self::Error as View>::V>(v@),
                ) && final(self).outcome() is None,
                Ok(Async::NotReady) => final(self).outcome() == old(self).outcome(),
                Err(e) => old(self).outcome() == Some(
                    Err::<<Self::Item as View>::V, <Self::Error as View>::V>(e@),
                ) && final(self).outcome() is None,
            },
    ;
}

/// A computation whose value is available on the first scheduling step.
pub struct Finished<T, E> {
    pub value: Option<Result<T, E>>,
}

impl<T: View, E: View> Finished<T, E> {
    pub fn new(value: Result<T, E>) -> (r: Self)
        ensures
            r.outcome() == Some(result_view(value)),
    {
        Finished { value: Some(value) }
    }
}

impl<T: View, E: View> AsyncComputation for Finished<T, E> {
    type Item = T;

    type Error = E;

    open spec fn outcome(&self) -> Option<Result<T::V, E::V>> {
        match self.value {
            Some(r) => Some(result_view(r)),
            None => None,
        }
    }

    open spec fn may_stall(&self) -> bool {
        false
    }

    fn poll(&mut self) -> (r: Poll<T, E>)
        ensures
            !(r matches Ok(Async::NotReady)),
    {
        match self.value.take() {
            Some(Ok(v)) => Ok(Async::Ready(v)),
            Some(Err(e)) => Err(e),
            None => Ok(Async::NotReady),
        }
    }
}

/// A computation that reports `NotReady` for a fixed number of scheduling
/// steps before delivering its value.
pub struct Delayed<T, E> {
    pub remaining: u64,
    pub value: Option<Result<T, E>>,
}

impl<T: View, E: View> Delayed<T, E> {
    pub fn new(remaining: u64, value: Result<T, E>) -> (r: Self)
        ensures
            r.outcome() == Some(result_view(value)),
            r.remaining == remaining,
    {
        Delayed { remaining, value: Some(value) }
    }
}

impl<T: View, E: View> AsyncComputation for Delayed<T, E> {
    type Item = T;

    type Error = E;

    open spec fn outcome(&self) -> Option<Result<T::V, E::V>> {
        match self.value {
            Some(r) => Some(result_view(r)),
            None => None,
        }
    }

    open spec fn may_stall(&self) -> bool {
        self.remaining > 0
    }

    fn poll(&mut self) -> (r: Poll<T, E>)
        ensures
            old(self).remaining > 0 ==> (r matches Ok(Async::NotReady)) && final(self).remaining
                == old(self).remaining - 1,
            old(self).remaining == 0 ==> !(r matches Ok(Async::NotReady)),
    {
        if self.remaining > 0 {
            self.remaining = self.remaining - 1;
            Ok(Async::NotReady)
        } else {
            match self.value.take() {
                Some(Ok(v)) => Ok(Async::Ready(v)),
                Some(Err(e)) => Err(e),
                None => Ok(Async::NotReady),
            }
        }
    }
}

} // verus!
