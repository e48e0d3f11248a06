use vstd::prelude::*;

use crate::builder::ContextBuilder;
use crate::callback::ShutdownCallback;
use crate::error::RclrsError;
use crate::native::{NativeHandle, NativeState};

verus! {

/// Abstract state of a [`Context`]: the native handle's state, the
/// observation history of the registered shutdown callback (if one is
/// registered), and how many owners currently share the context.
pub ghost struct ContextView {
    /// State of the wrapped native handle.
    pub native: NativeState,
    /// Observation history of the registered callback, or `None` when no
    /// callback is registered.
    pub callback: Option<Seq<bool>>,
    /// Number of owners (the context itself, nodes, spin tasks) that still
    /// share the underlying native handle.
    pub holders: nat,
}

impl ContextView {
    /// Well-formedness: while anyone still holds the context the native
    /// resources have not been released, and once the last holder is gone
    /// they have been released exactly once and the handle is invalid.
    pub open spec fn wf(self) -> bool {
        &&& self.holders >= 1 ==> self.native.finalize_count == 0
        &&& self.holders == 0 ==> self.native.finalize_count == 1 && !self.native.valid
    }
}

/// What [`Context::shutdown`] does to the abstract state, and what it
/// returns. An already invalid context is left unchanged. Otherwise the
/// native handle is shut down; if that fails, the fatal error is returned
/// and the callback is not invoked; on success the registered callback (if
/// any) observes exactly one more value, namely `false`, because the context
/// has already become invalid when the callback runs.
pub open spec fn spec_shutdown(s: ContextView) -> (ContextView, Result<bool, RclrsError>) {
    if !s.native.valid {
        (s, Ok(false))
    } else if s.native.fail_shutdown {
        (
            ContextView { native: NativeState { valid: false, ..s.native }, ..s },
            Err(RclrsError::FinalizeFailure),
        )
    } else {
        (
            ContextView {
                native: NativeState { valid: false, ..s.native },
                callback: match s.callback {
                    Some(obs) => Some(obs.push(false)),
                    None => None,
                },
                ..s
            },
            Ok(true),
        )
    }
}

/// What [`Context::release`] does to the abstract state, and what it
/// returns. While other holders remain, only the count drops. The release by
/// the last holder shuts the handle down if it is still valid (without
/// invoking the callback, and ignoring the outcome, since the resources are
/// released right after) and then finalizes it exactly once; a finalize
/// failure is returned as the fatal error. Holders are interchangeable, so
/// the order in which they release is immaterial to this function.
pub open spec fn spec_release(s: ContextView) -> (ContextView, Result<bool, RclrsError>) {
    if s.holders > 1 {
        (ContextView { holders: (s.holders - 1) as nat, ..s }, Ok(false))
    } else {
        (
            ContextView {
                native: NativeState {
                    valid: false,
                    finalize_count: s.native.finalize_count + 1,
                    ..s.native
                },
                holders: 0,
                ..s
            },
            if s.native.fail_fini {
                Err(RclrsError::FinalizeFailure)
            } else {
                Ok(true)
            },
        )
    }
}

/// Shutdown is idempotent and monotonic: on a valid context with a healthy
/// native layer, the first shutdown performs the transition and returns
/// `Ok(true)`, leaving the context invalid; a second shutdown (and so every
/// later one, the state being unchanged) returns `Ok(false)` and the context
/// stays invalid — it never returns to validity.
pub proof fn lemma_shutdown_idempotent(s: ContextView)
    requires
        s.native.valid,
        !s.native.fail_shutdown,
    ensures
        ({
            let (s1, r1) = spec_shutdown(s);
            let (s2, r2) = spec_shutdown(s1);
            &&& r1 == Ok::<bool, RclrsError>(true)
            &&& !s1.native.valid
            &&& r2 == Ok::<bool, RclrsError>(false)
            &&& s2 == s1
            &&& !s2.native.valid
        }),
{
}

/// Registering a shutdown callback and then shutting down runs the callback
/// exactly once — its observation history grows by exactly one entry — and
/// only after the context has become invalid: the one observed value is
/// `false`, what a validity query on the context returns at that moment.
pub proof fn lemma_callback_ordering(s: ContextView, obs: Seq<bool>)
    requires
        s.native.valid,
        !s.native.fail_shutdown,
    ensures
        ({
            let registered = ContextView { callback: Some(obs), ..s };
            let (s1, r) = spec_shutdown(registered);
            &&& r == Ok::<bool, RclrsError>(true)
            &&& !s1.native.valid
            &&& s1.callback == Some(obs.push(false))
        }),
{
}

/// The abstract state after `n` successive releases.
pub open spec fn spec_release_n(s: ContextView, n: nat) -> ContextView
    decreases n,
{
    if n == 0 {
        s
    } else {
        spec_release(spec_release_n(s, (n - 1) as nat)).0
    }
}

proof fn lemma_release_prefix(s: ContextView, k: nat, j: nat)
    requires
        s.holders == k,
        1 <= k,
        j < k,
    ensures
        spec_release_n(s, j) == (ContextView { holders: (k - j) as nat, ..s }),
    decreases j,
{
    if j > 0 {
        lemma_release_prefix(s, k, (j - 1) as nat);
    }
}

/// Finalization happens exactly once. Starting from a well-formed context
/// shared by `k` holders, each of the first `k - 1` releases only lowers the
/// holder count: the native resources stay unreleased. The `k`-th release —
/// holders being interchangeable, it does not matter in which order they
/// go — finalizes the native handle exactly once and leaves it invalid, and
/// it alone reports that it finalized.
pub proof fn lemma_exactly_once_finalize(s: ContextView, k: nat)
    requires
        s.wf(),
        s.holders == k,
        1 <= k,
    ensures
        forall|j: nat| j < k ==> (#[trigger] spec_release_n(s, j)).native.finalize_count == 0,
        forall|j: nat|
            1 <= j < k ==> spec_release(#[trigger] spec_release_n(s, (j - 1) as nat)).1 == Ok::<
                bool,
                RclrsError,
            >(false),
        spec_release_n(s, k).holders == 0,
        spec_release_n(s, k).native.finalize_count == 1,
        !spec_release_n(s, k).native.valid,
        spec_release(spec_release_n(s, (k - 1) as nat)).1 == (if s.native.fail_fini {
            Err::<bool, RclrsError>(RclrsError::FinalizeFailure)
        } else {
            Ok::<bool, RclrsError>(true)
        }),
{
    assert forall|j: nat| j < k implies (#[trigger] spec_release_n(s, j)).native.finalize_count
        == 0 by {
        if j == 0 {
        } else {
            lemma_release_prefix(s, k, j);
        }
    }
    assert forall|j: nat|
        1 <= j < k implies spec_release(#[trigger] spec_release_n(s, (j - 1) as nat)).1 == Ok::<
        bool,
        RclrsError,
    >(false) by {
        if j == 1 {
        } else {
            lemma_release_prefix(s, k, (j - 1) as nat);
        }
    }
    if k == 1 {
    } else {
        lemma_release_prefix(s, k, (k - 1) as nat);
    }
}

/// Shared state between nodes and similar entities: a handle to the native
/// communication layer together with an optional shutdown callback.
///
/// Ownership of the underlying handle is shared by the `Context` itself and
/// every entity created from it; the holder count tracks that sharing
/// explicitly ([`Context::share`], [`Context::release`]), and the native
/// resources are released exactly when the last holder releases.
pub struct Context<C: ShutdownCallback> {
    handle: NativeHandle,
    shutdown_callback: Option<C>,
    holders: u64,
}

impl<C: ShutdownCallback> View for Context<C> {
    type V = ContextView;

    closed spec fn view(&self) -> ContextView {
        ContextView {
            native: self.handle@,
            callback: match self.shutdown_callback {
                Some(cb) => Some(cb.observations()),
                None => None,
            },
            holders: self.holders as nat,
        }
    }
}

impl<C: ShutdownCallback> Context<C> {
    /// Builds a context from the given arguments with a healthy native layer
    /// and no environment override; see [`ContextBuilder::build`].
    pub fn new(args: Vec<String>) -> (r: Result<Context<C>, RclrsError>)
        ensures
            r is Ok,
            r->Ok_0@ == ContextBuilder::spec_built(
                args@,
                None,
                crate::native::NativeConfig::spec_default(),
            ),
            r->Ok_0@.wf(),
    {
        Context::<C>::builder(args).build()
    }

    /// Creates a [`ContextBuilder`] capturing the given arguments.
    pub fn builder(args: Vec<String>) -> (b: ContextBuilder)
        ensures
            b@.args == args@,
            b@.domain_override is None,
            b@.config == crate::native::NativeConfig::spec_default(),
    {
        ContextBuilder::new(args)
    }

    /// Used by [`ContextBuilder::build`] to wrap a freshly initialized handle.
    pub(crate) fn from_handle(handle: NativeHandle) -> (c: Context<C>)
        ensures
            c@ == (ContextView { native: handle@, callback: None, holders: 1nat }),
    {
        Context { handle, shutdown_callback: None, holders: 1 }
    }

    /// Checks whether the context is still valid, that is, has not been shut
    /// down (whether explicitly, by a signal, or by the last release).
    pub fn ok(&self) -> (r: bool)
        ensures
            r == self@.native.valid,
    {
        self.handle.is_valid()
    }

    /// Returns the resolved domain id, which controls which nodes can send
    /// messages to each other. It is fixed at construction: an explicit
    /// builder override, else the environment value, else the platform
    /// default. Fails with [`RclrsError::InvalidContext`] exactly when the
    /// context is no longer valid.
    pub fn domain_id(&self) -> (r: Result<usize, RclrsError>)
        ensures
            r == (if self@.native.valid {
                Ok::<usize, RclrsError>(self@.native.domain)
            } else {
                Err::<usize, RclrsError>(RclrsError::InvalidContext)
            }),
    {
        if self.handle.is_valid() {
            Ok(self.handle.domain_id())
        } else {
            Err(RclrsError::InvalidContext)
        }
    }

    /// Registers the callback invoked after a shutdown, replacing any
    /// previously registered one: the last registration wins.
    pub fn add_on_shutdown_callback(&mut self, callback: C)
        ensures
            final(self)@ == (ContextView {
                callback: Some(callback.observations()),
                ..old(self)@
            }),
    {
        self.shutdown_callback = Some(callback);
    }

    /// Borrows the registered shutdown callback, if any.
    pub fn on_shutdown_callback(&self) -> (r: &Option<C>)
        ensures
            self@.callback == (match *r {
                Some(ref cb) => Some(cb.observations()),
                None => None::<Seq<bool>>,
            }),
    {
        &self.shutdown_callback
    }

    /// The number of owners currently sharing the underlying native handle.
    pub fn holders(&self) -> (r: u64)
        ensures
            r == self@.holders,
    {
        self.holders
    }

    /// Shuts the context down, making it permanently invalid for derived
    /// entities. Returns `Ok(false)` without any effect when the context is
    /// already invalid, so that of any number of shutdown calls exactly the
    /// first one performs the transition and returns `Ok(true)`. On success
    /// the registered callback is invoked exactly once, after the context
    /// has become invalid. A native shutdown failure is fatal and returned
    /// as [`RclrsError::FinalizeFailure`]; the callback is then not invoked.
    pub fn shutdown(&mut self) -> (r: Result<bool, RclrsError>)
        ensures
            (final(self)@, r) == spec_shutdown(old(self)@),
    {
        if !self.handle.is_valid() {
            return Ok(false);
        }
        let native_result = self.handle.shutdown();
        if native_result.is_err() {
            return Err(RclrsError::FinalizeFailure);
        }
        let context_valid = self.handle.is_valid();
        match &mut self.shutdown_callback {
            Some(cb) => cb.invoke(context_valid),
            None => (),
        }
        Ok(true)
    }

    /// Records one more owner of the underlying native handle, as node
    /// creation does.
    pub fn share(&mut self)
        requires
            1 <= old(self)@.holders,
            old(self)@.holders < u64::MAX,
        ensures
            final(self)@ == (ContextView {
                holders: (old(self)@.holders + 1) as nat,
                ..old(self)@
            }),
    {
        self.holders = self.holders + 1;
    }

    /// Releases one owner of the underlying native handle. The release by
    /// the last holder — whichever holder that happens to be — shuts the
    /// handle down if it is still valid and then finalizes the native
    /// resources, exactly once over the whole life of the context; it
    /// returns `Ok(true)`, while every earlier release returns `Ok(false)`.
    /// A finalize failure is fatal and returned as
    /// [`RclrsError::FinalizeFailure`]; the embedding layer must terminate
    /// rather than continue on it.
    pub fn release(&mut self) -> (r: Result<bool, RclrsError>)
        requires
            old(self)@.wf(),
            1 <= old(self)@.holders,
        ensures
            (final(self)@, r) == spec_release(old(self)@),
            final(self)@.wf(),
    {
        self.holders = self.holders - 1;
        if self.holders == 0 {
            if self.handle.is_valid() {
                // The outcome is deliberately ignored: finalize follows either way.
                let _ = self.handle.shutdown();
            }
            match self.handle.finalize() {
                Ok(()) => Ok(true),
                Err(e) => Err(e),
            }
        } else {
            Ok(false)
        }
    }
}

} // verus!
