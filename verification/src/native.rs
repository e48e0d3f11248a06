use vstd::prelude::*;

use crate::error::RclrsError;

verus! {

/// The platform default domain id, used when neither an explicit override nor
/// an environment value is supplied.
pub const DEFAULT_DOMAIN_ID: usize = 0;

/// Ambient configuration of the native layer for one initialization.
///
/// It carries the domain id found in the process environment (the embedding
/// layer reads and parses the `ROS_DOMAIN_ID` variable and hands the value in
/// here), together with failure injection used to build test doubles of the
/// native layer, as the lifecycle properties of this crate require.
/// A healthy native layer corresponds to [`NativeConfig::default`].
#[derive(Clone, Copy, PartialEq, Eq, Structural)]
pub struct NativeConfig {
    /// Domain id taken from the environment, if the variable was set.
    pub env_domain: Option<usize>,
    /// Double: argument parsing reports failure during initialization.
    pub fail_init_args: bool,
    /// Double: native resource allocation reports failure during initialization.
    pub fail_init_alloc: bool,
    /// Double: the native shutdown call reports failure.
    pub fail_shutdown: bool,
    /// Double: the native finalize call reports failure.
    pub fail_fini: bool,
}

impl NativeConfig {
    /// A healthy native layer with no environment override and no injected failures.
    pub open spec fn spec_default() -> NativeConfig {
        NativeConfig {
            env_domain: None,
            fail_init_args: false,
            fail_init_alloc: false,
            fail_shutdown: false,
            fail_fini: false,
        }
    }
}

impl Default for NativeConfig {
    /// A healthy native layer with no environment override and no injected failures.
    fn default() -> (c: NativeConfig)
        ensures
            c == NativeConfig::spec_default(),
    {
        NativeConfig {
            env_domain: None,
            fail_init_args: false,
            fail_init_alloc: false,
            fail_shutdown: false,
            fail_fini: false,
        }
    }
}

/// The domain id that initialization resolves: an explicit override has the
/// highest priority, then the environment value, then the platform default.
pub open spec fn resolved_domain(domain_override: Option<usize>, env_domain: Option<usize>) -> usize {
    match domain_override {
        Some(d) => d,
        None => match env_domain {
            Some(d) => d,
            None => DEFAULT_DOMAIN_ID,
        },
    }
}

/// An explicit override always wins; the environment value is used only when
/// no override is given; with neither, the platform default is used.
pub proof fn lemma_domain_resolution_precedence(
    domain_override: Option<usize>,
    env_domain: Option<usize>,
)
    ensures
        domain_override is Some ==> resolved_domain(domain_override, env_domain)
            == domain_override->0,
        domain_override is None && env_domain is Some ==> resolved_domain(
            domain_override,
            env_domain,
        ) == env_domain->0,
        domain_override is None && env_domain is None ==> resolved_domain(
            domain_override,
            env_domain,
        ) == DEFAULT_DOMAIN_ID,
{
}

/// Abstract state of a native handle.
pub ghost struct NativeState {
    /// Whether the handle is usable for derived entities and operations.
    pub valid: bool,
    /// The resolved domain id, fixed at initialization.
    pub domain: usize,
    /// The argument sequence captured at initialization.
    pub args: Seq<String>,
    /// Double knob: the native shutdown call will report failure.
    pub fail_shutdown: bool,
    /// Double knob: the native finalize call will report failure.
    pub fail_fini: bool,
    /// How many times the handle has been finalized.
    pub finalize_count: nat,
}

/// A handle to the native communication layer, modeled as explicit state: a
/// validity flag, the resolved domain id, the captured arguments, and a
/// finalize counter. Only [`NativeHandle::initialize`] creates one, so every
/// handle starts valid and not yet finalized.
pub struct NativeHandle {
    valid: bool,
    domain: usize,
    args: Vec<String>,
    fail_shutdown: bool,
    fail_fini: bool,
    finalize_count: u64,
}

impl View for NativeHandle {
    type V = NativeState;

    closed spec fn view(&self) -> NativeState {
        NativeState {
            valid: self.valid,
            domain: self.domain,
            args: self.args@,
            fail_shutdown: self.fail_shutdown,
            fail_fini: self.fail_fini,
            finalize_count: self.finalize_count as nat,
        }
    }
}

impl NativeHandle {
    /// Parses the arguments, resolves the domain id, and allocates the native
    /// resources, yielding a valid handle. The two construction failures are
    /// distinguished: argument parsing is attempted before allocation.
    pub fn initialize(
        args: Vec<String>,
        domain_override: Option<usize>,
        config: &NativeConfig,
    ) -> (r: Result<NativeHandle, RclrsError>)
        ensures
            config.fail_init_args ==> r == Err::<NativeHandle, RclrsError>(
                RclrsError::InvalidArguments,
            ),
            !config.fail_init_args && config.fail_init_alloc ==> r == Err::<
                NativeHandle,
                RclrsError,
            >(RclrsError::AllocationFailure),
            !config.fail_init_args && !config.fail_init_alloc ==> r is Ok && r->Ok_0@
                == (NativeState {
                valid: true,
                domain: resolved_domain(domain_override, config.env_domain),
                args: args@,
                fail_shutdown: config.fail_shutdown,
                fail_fini: config.fail_fini,
                finalize_count: 0,
            }),
    {
        if config.fail_init_args {
            return Err(RclrsError::InvalidArguments);
        }
        if config.fail_init_alloc {
            return Err(RclrsError::AllocationFailure);
        }
        let domain: usize = match domain_override {
            Some(d) => d,
            None => match config.env_domain {
                Some(d) => d,
                None => DEFAULT_DOMAIN_ID,
            },
        };
        Ok(
            NativeHandle {
                valid: true,
                domain,
                args,
                fail_shutdown: config.fail_shutdown,
                fail_fini: config.fail_fini,
                finalize_count: 0,
            },
        )
    }

    /// Whether the handle is still usable. Safe to call in any state.
    pub fn is_valid(&self) -> (r: bool)
        ensures
            r == self@.valid,
    {
        self.valid
    }

    /// The resolved domain id. Callers must hold the handle valid.
    pub fn domain_id(&self) -> (r: usize)
        requires
            self@.valid,
        ensures
            r == self@.domain,
    {
        self.domain
    }

    /// Makes the handle permanently invalid. Not idempotent: callers must
    /// guard against calling it on an already invalid handle. On failure the
    /// handle is nonetheless treated as invalid from here on.
    pub fn shutdown(&mut self) -> (r: Result<(), RclrsError>)
        requires
            old(self)@.valid,
        ensures
            final(self)@ == (NativeState { valid: false, ..old(self)@ }),
            r == (if old(self)@.fail_shutdown {
                Err::<(), RclrsError>(RclrsError::FinalizeFailure)
            } else {
                Ok::<(), RclrsError>(())
            }),
    {
        self.valid = false;
        if self.fail_shutdown {
            Err(RclrsError::FinalizeFailure)
        } else {
            Ok(())
        }
    }

    /// Releases the native resources, shutting the handle down first if it is
    /// still valid. Must be called exactly once per handle; callers guard that.
    pub fn finalize(&mut self) -> (r: Result<(), RclrsError>)
        requires
            old(self)@.finalize_count == 0,
        ensures
            final(self)@ == (NativeState {
                valid: false,
                finalize_count: 1,
                ..old(self)@
            }),
            r == (if old(self)@.fail_fini {
                Err::<(), RclrsError>(RclrsError::FinalizeFailure)
            } else {
                Ok::<(), RclrsError>(())
            }),
    {
        self.valid = false;
        self.finalize_count = self.finalize_count + 1;
        if self.fail_fini {
            Err(RclrsError::FinalizeFailure)
        } else {
            Ok(())
        }
    }
}

} // verus!
