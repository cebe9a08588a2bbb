//! The refresh capability handlers depend on.
use vstd::prelude::*;

verus! {

/// A media server whose library can be refreshed. Implementations debounce
/// internally: the caller fires and forgets.
pub trait MediaServer {
    /// Schedule a library refresh; returns at once.
    fn refresh(&self);
}

/// Media server that does nothing: used when no media server is configured.
#[derive(Debug, Default, Clone, Copy)]
pub struct NoopMediaServer;

impl MediaServer for NoopMediaServer {
    fn refresh(&self) {
    }
}

} // verus!
