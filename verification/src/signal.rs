use vstd::prelude::*;

verus! {

/// Tracks the one-shot installation of the process's interrupt-signal
/// handler, which on receipt of the signal shuts a shared context down.
///
/// Signal handlers are process-global, so installing twice must not register
/// a second handler: exactly the first attempt claims the installation, and
/// every later attempt is an idempotent no-op. The embedding layer keeps one
/// value of this type behind its process-wide synchronization and performs
/// the actual asynchronous registration only when an attempt returns `true`.
pub struct SignalHandlerInstaller {
    installed: bool,
}

impl View for SignalHandlerInstaller {
    type V = bool;

    closed spec fn view(&self) -> bool {
        self.installed
    }
}

impl SignalHandlerInstaller {
    /// An installer that has not yet registered a handler.
    pub fn new() -> (s: SignalHandlerInstaller)
        ensures
            s@ == false,
    {
        SignalHandlerInstaller { installed: false }
    }

    /// Claims the installation. Returns `true` exactly on the first attempt:
    /// the caller then registers the handler; every later attempt returns
    /// `false` and changes nothing, making repeated installation a no-op.
    pub fn try_install(&mut self) -> (r: bool)
        ensures
            r == !old(self)@,
            final(self)@ == true,
    {
        let first = !self.installed;
        self.installed = true;
        first
    }
}

} // verus!
