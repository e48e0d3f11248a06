use vstd::prelude::*;

verus! {

/// A capability invoked when a context is shut down, standing for the
/// user-supplied closure of the binding (typically used to wake a wait set).
///
/// At the moment a context invokes the callback it has already become
/// invalid, so the callback receives `context_valid == false`: the value a
/// validity query on that context would return at that moment. Each
/// invocation is recorded in the abstract observation history, which lets
/// contracts state that a shutdown runs the callback exactly once and only
/// after the context stopped being valid.
pub trait ShutdownCallback: Sized {
    /// The validity values this callback has observed, one per invocation,
    /// oldest first.
    spec fn observations(&self) -> Seq<bool>;

    /// Invoked by the context; `context_valid` is the context's validity at
    /// the moment of invocation.
    fn invoke(&mut self, context_valid: bool)
        ensures
            final(self).observations() == old(self).observations().push(context_valid),
    ;
}

/// A callback with no runtime effect; its observation history is ghost.
pub struct NoopCallback {
    observed: Ghost<Seq<bool>>,
}

impl NoopCallback {
    /// A fresh callback that has never been invoked.
    pub fn new() -> (c: NoopCallback)
        ensures
            c.observations() == Seq::<bool>::empty(),
    {
        NoopCallback { observed: Ghost(Seq::empty()) }
    }
}

impl ShutdownCallback for NoopCallback {
    closed spec fn observations(&self) -> Seq<bool> {
        self.observed@
    }

    fn invoke(&mut self, context_valid: bool) {
        self.observed = Ghost(self.observed@.push(context_valid));
    }
}

/// A callback that records every observed validity value, so that callers
/// (and tests) can inspect when and how often it ran.
pub struct RecordingCallback {
    /// The observed validity values, one per invocation, oldest first.
    pub observed: Vec<bool>,
}

impl RecordingCallback {
    /// A fresh callback that has never been invoked.
    pub fn new() -> (c: RecordingCallback)
        ensures
            c.observations() == Seq::<bool>::empty(),
    {
        RecordingCallback { observed: Vec::new() }
    }
}

impl ShutdownCallback for RecordingCallback {
    open spec fn observations(&self) -> Seq<bool> {
        self.observed@
    }

    fn invoke(&mut self, context_valid: bool) {
        self.observed.push(context_valid);
    }
}

} // verus!
