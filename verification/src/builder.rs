use vstd::prelude::*;

use crate::callback::ShutdownCallback;
use crate::context::{Context, ContextView};
use crate::error::RclrsError;
use crate::native::{resolved_domain, NativeConfig, NativeHandle, NativeState};

verus! {

/// Abstract state of a [`ContextBuilder`]: the captured arguments, the
/// optional explicit domain override, and the native-layer configuration.
pub ghost struct ContextBuilderView {
    /// The argument sequence that will be handed to initialization.
    pub args: Seq<String>,
    /// The explicit domain id override, if one was set.
    pub domain_override: Option<usize>,
    /// The native-layer configuration used at build time.
    pub config: NativeConfig,
}

/// Builds a [`Context`] from process arguments, an optional explicit domain
/// id override, and the ambient native-layer configuration.
///
/// The builder is ephemeral: `build` consumes its settings into a fresh
/// context and can be repeated, but the builder carries no identity beyond
/// them.
pub struct ContextBuilder {
    args: Vec<String>,
    domain_override: Option<usize>,
    config: NativeConfig,
}

impl View for ContextBuilder {
    type V = ContextBuilderView;

    closed spec fn view(&self) -> ContextBuilderView {
        ContextBuilderView {
            args: self.args@,
            domain_override: self.domain_override,
            config: self.config,
        }
    }
}

impl ContextBuilder {
    /// The context that a successful build yields: a valid native handle
    /// with the resolved domain id, one holder, and no callback registered.
    pub open spec fn spec_built(
        args: Seq<String>,
        domain_override: Option<usize>,
        config: NativeConfig,
    ) -> ContextView {
        ContextView {
            native: NativeState {
                valid: true,
                domain: resolved_domain(domain_override, config.env_domain),
                args: args,
                fail_shutdown: config.fail_shutdown,
                fail_fini: config.fail_fini,
                finalize_count: 0,
            },
            callback: None,
            holders: 1,
        }
    }

    /// Captures the argument sequence; the domain id defaults to "unset",
    /// deferring to the environment or the platform default at build time,
    /// and the native layer defaults to a healthy one.
    pub fn new(args: Vec<String>) -> (b: ContextBuilder)
        ensures
            b@ == (ContextBuilderView {
                args: args@,
                domain_override: None,
                config: NativeConfig::spec_default(),
            }),
    {
        ContextBuilder { args, domain_override: None, config: NativeConfig::default() }
    }

    /// Sets the explicit domain id, which takes priority over the
    /// environment value and the platform default.
    pub fn domain_id(self, domain_id: usize) -> (b: ContextBuilder)
        ensures
            b@ == (ContextBuilderView { domain_override: Some(domain_id), ..self@ }),
    {
        ContextBuilder { domain_override: Some(domain_id), ..self }
    }

    /// Sets the native-layer configuration: the domain id found in the
    /// environment, and any injected failures of a test double.
    pub fn native_config(self, config: NativeConfig) -> (b: ContextBuilder)
        ensures
            b@ == (ContextBuilderView { config: config, ..self@ }),
    {
        ContextBuilder { config, ..self }
    }

    /// Initializes a native handle and wraps it in a fresh [`Context`] with
    /// a single holder. Fails with [`RclrsError::InvalidArguments`] exactly
    /// when the native layer rejects the arguments, and otherwise with
    /// [`RclrsError::AllocationFailure`] exactly when native allocation
    /// fails; on a healthy native layer it always succeeds. Never panics.
    pub fn build<C: ShutdownCallback>(self) -> (r: Result<Context<C>, RclrsError>)
        ensures
            self@.config.fail_init_args ==> r is Err && r->Err_0
                == RclrsError::InvalidArguments,
            !self@.config.fail_init_args && self@.config.fail_init_alloc ==> r is Err
                && r->Err_0 == RclrsError::AllocationFailure,
            !self@.config.fail_init_args && !self@.config.fail_init_alloc ==> r is Ok
                && r->Ok_0@ == ContextBuilder::spec_built(
                self@.args,
                self@.domain_override,
                self@.config,
            ) && r->Ok_0@.wf(),
    {
        match NativeHandle::initialize(self.args, self.domain_override, &self.config) {
            Ok(handle) => Ok(Context::from_handle(handle)),
            Err(e) => Err(e),
        }
    }
}

} // verus!
