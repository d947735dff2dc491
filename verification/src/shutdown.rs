//! The stop flag shared by a runtime and its workers.

use std::sync::atomic::{AtomicBool, Ordering};
use std::sync::Arc;
use vstd::prelude::*;

verus! {

/// Describes the running status of a runtime.
///
/// Every clone of a [`Shutdown`] refers to the same flag: stopping one stops them all.
/// Primarily used when the graceful shutdown is enabled, some workers may use it to
/// control the runtime in which they are launched.
#[derive(Debug)]
pub struct Shutdown(Arc<AtomicBool>);

impl Shutdown {
    /// The shared flag that this handle refers to.
    pub closed spec fn shared_flag(&self) -> Arc<AtomicBool> {
        self.0
    }

    /// Returns a new flag, in the running state.
    pub fn new() -> Self {
        Shutdown(Arc::new(AtomicBool::new(false)))
    }

    /// Stops the runtime (and every runtime that shares this flag).
    pub fn stop(&self) {
        self.0.store(true, Ordering::SeqCst)
    }

    /// Returns whether or not the runtime is running.
    ///
    /// The flag is shared between threads: what this returns is what the flag
    /// held when it was read.
    pub fn is_running(&self) -> bool {
        !self.0.load(Ordering::SeqCst)
    }
}

/// Gives the shared flag itself, set to `true` once the runtime is stopped.
impl AsRef<Arc<AtomicBool>> for Shutdown {
    fn as_ref(&self) -> (f: &Arc<AtomicBool>)
        ensures
            *f == self.shared_flag(),
    {
        &self.0
    }
}

/// The default flag is a new one, in the running state, as [`Shutdown::new`] gives.
impl Default for Shutdown {
    fn default() -> Self {
        Shutdown::new()
    }
}

impl Clone for Shutdown {
    fn clone(&self) -> (s: Self)
        ensures
            s == *self,
    {
        Shutdown(self.0.clone())
    }
}

/// A runtime's own hold on its stop flag: the flag, and whether the runtime has
/// stopped it. The runtime stops its flag only through this hold, which records it.
pub struct StopSwitch {
    flag: Shutdown,
    thrown: bool,
}

impl StopSwitch {
    /// The flag this hold stops.
    pub closed spec fn held_flag(&self) -> Shutdown {
        self.flag
    }

    /// Whether the flag has been stopped through this hold.
    pub closed spec fn is_thrown(&self) -> bool {
        self.thrown
    }

    /// Returns a hold on `flag` through which it has not been stopped yet.
    pub fn new(flag: Shutdown) -> (s: Self)
        ensures
            s.held_flag() == flag,
            !s.is_thrown(),
    {
        StopSwitch { flag: flag, thrown: false }
    }

    /// Returns the flag this hold stops.
    pub fn flag(&self) -> (f: &Shutdown)
        ensures
            *f == self.held_flag(),
    {
        &self.flag
    }

    /// Returns whether the flag has been stopped through this hold.
    pub fn thrown(&self) -> (b: bool)
        ensures
            b == self.is_thrown(),
    {
        self.thrown
    }

    /// Stops the flag, and records that it was stopped through this hold.
    pub fn stop(&mut self)
        ensures
            final(self).held_flag() == old(self).held_flag(),
            final(self).is_thrown(),
    {
        self.flag.stop();
        self.thrown = true;
    }
}

} // verus!
