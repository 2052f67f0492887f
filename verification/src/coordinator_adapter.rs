//! The local runtime handle behind the coordinator backend, and how the adapter reads the
//! runtime's fallible answers.
//!
//! The adapter forwards enqueue and admin calls to the upstream runtime; lookups, listings,
//! counts and statistics that fail read as absent, empty, zero and zero runs.

use std::sync::Arc;
use vstd::prelude::*;

verus! {

/// `Arc::clone`: another pointer to the same allocation, hence the same value.
#[verifier::external_body]
fn share<T>(value: &Arc<T>) -> (shared: Arc<T>)
    ensures
        shared == *value,
{
    Arc::clone(value)
}

/// Wraps a shared upstream runtime for host / server-function enqueue and admin.
pub struct CoordinatorAdapter<T> {
    inner: Arc<T>,
}

impl<T> CoordinatorAdapter<T> {
    /// The runtime this adapter forwards to.
    pub closed spec fn handle(&self) -> Arc<T> {
        self.inner
    }

    /// Create adapter from shared runtime.
    pub fn new(inner: Arc<T>) -> (adapter: Self)
        ensures
            adapter.handle() == inner,
    {
        CoordinatorAdapter { inner }
    }

    /// Underlying upstream runtime (Axum state).
    pub fn runtime(&self) -> (runtime: Arc<T>)
        ensures
            runtime == self.handle(),
    {
        share(&self.inner)
    }

    /// Borrow the shared runtime (for calls that answer with references into it).
    pub fn shared_runtime(&self) -> (runtime: &Arc<T>)
        ensures
            *runtime == self.handle(),
    {
        &self.inner
    }

    /// The in-process runtime: an adapter always has one.
    pub fn as_boson_runtime(&self) -> (runtime: Option<Arc<T>>)
        ensures
            runtime == Some(self.handle()),
    {
        Some(share(&self.inner))
    }
}

/// A lookup (job or run by id) that failed reads as absent.
pub fn found_or_none<V, E>(lookup: Result<Option<V>, E>) -> (found: Option<V>)
    ensures
        found == match lookup {
            Ok(value) => value,
            Err(_) => None,
        },
{
    match lookup {
        Ok(value) => value,
        Err(_) => None,
    }
}

/// A listing (jobs or runs) that failed reads as empty.
pub fn listed_or_empty<V, E>(listing: Result<Vec<V>, E>) -> (items: Vec<V>)
    ensures
        match listing {
            Ok(listed) => items@ == listed@,
            Err(_) => items@.len() == 0,
        },
{
    match listing {
        Ok(listed) => listed,
        Err(_) => Vec::new(),
    }
}

/// A count or a statistic that failed reads as the given fallback (zero, or zero runs).
pub fn or_fallback<V, E>(answer: Result<V, E>, fallback: V) -> (value: V)
    ensures
        value == match answer {
            Ok(v) => v,
            Err(_) => fallback,
        },
{
    match answer {
        Ok(v) => v,
        Err(_) => fallback,
    }
}

} // verus!
