//! The shutdown flag of a connection handler: whether the server's shutdown
//! signal has been received. The signal travels on a broadcast channel that
//! the caller listens to; the flag records what came back.

use vstd::prelude::*;

verus! {

/// What listening on the shutdown channel gave.
#[derive(Debug)]
pub enum ShutdownSignal {
    /// The signal, with the disconnect reason.
    Reason(String),
    /// Every sender was dropped without a signal.
    Closed,
    /// The listener missed this many signals.
    Lagged(u64),
}

/// Whether the shutdown signal has been received. Once set it stays set:
/// a server cannot be un-shut down.
#[derive(Debug)]
pub struct ShutdownFlag {
    is_shutdown: bool,
}

impl ShutdownFlag {
    /// The flag of a handler that has not seen the signal.
    pub fn new() -> (r: ShutdownFlag)
        ensures
            !r.spec_is_shutdown(),
    {
        ShutdownFlag { is_shutdown: false }
    }

    /// Whether the signal has been received.
    pub closed spec fn spec_is_shutdown(&self) -> bool {
        self.is_shutdown
    }

    /// Whether the signal has been received.
    pub fn is_shutdown(&self) -> (r: bool)
        ensures
            r == self.spec_is_shutdown(),
    {
        self.is_shutdown
    }

    /// Records what listening gave and returns the disconnect reason, if
    /// any: a signal sets the flag and gives its reason; a lag is taken as
    /// the signal with no reason; a closed channel gives no reason and
    /// leaves the flag as it was.
    pub fn observe(&mut self, signal: ShutdownSignal) -> (r: Option<String>)
        ensures
            old(self).spec_is_shutdown() ==> final(self).spec_is_shutdown(),
            match signal {
                ShutdownSignal::Reason(s) => final(self).spec_is_shutdown() && (r matches Some(t)
                    && t@ == s@),
                ShutdownSignal::Closed => final(self).spec_is_shutdown()
                    == old(self).spec_is_shutdown() && r is None,
                ShutdownSignal::Lagged(_) => final(self).spec_is_shutdown() && r is None,
            },
    {
        match signal {
            ShutdownSignal::Reason(s) => {
                self.is_shutdown = true;
                Some(s)
            },
            ShutdownSignal::Closed => None,
            ShutdownSignal::Lagged(_) => {
                self.is_shutdown = true;
                None
            },
        }
    }
}

} // verus!
