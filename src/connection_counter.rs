//! Count of open client connections, shared by every handler.
use vstd::prelude::*;
use std::sync::atomic::{AtomicUsize, Ordering};
use std::sync::Arc;

verus! {

/// Relies on `AtomicUsize::fetch_sub`, which wraps around on overflow
/// instead of panicking, so it returns on every input.
#[verifier::external_body]
fn decrement(count: &AtomicUsize)
    opens_invariants none
    no_unwind
{
    count.fetch_sub(1, Ordering::Relaxed);
}

/// A shared count of open connections. Clones share one count.
#[derive(Clone)]
pub struct ConnectionCounter {
    count: Arc<AtomicUsize>,
}

/// An open connection: counted from [`ConnectionCounter::acquire`] until
/// it is dropped.
pub struct Session<'a> {
    counter: &'a ConnectionCounter,
}

impl ConnectionCounter {
    pub fn new() -> Self {
        ConnectionCounter { count: Arc::new(AtomicUsize::new(0)) }
    }

    /// Counts one more connection, until the returned session is dropped.
    pub fn acquire(&self) -> (r: Session)
        ensures
            r.counter() == self,
    {
        self.count.fetch_add(1, Ordering::Relaxed);
        Session { counter: self }
    }

    /// Counts one connection fewer.
    pub fn release(&self)
        opens_invariants none
        no_unwind
    {
        decrement(&self.count);
    }

    /// The number of open connections; other threads may change it at any
    /// moment.
    pub fn current(&self) -> usize {
        self.count.load(Ordering::Relaxed)
    }
}

impl<'a> Session<'a> {
    pub closed spec fn counter(&self) -> &'a ConnectionCounter {
        self.counter
    }
}

impl<'a> Drop for Session<'a> {
    fn drop(&mut self)
        opens_invariants none
        no_unwind
    {
        self.counter.release();
    }
}

} // verus!
