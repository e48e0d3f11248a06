use vstd::prelude::*;

use crate::builder::ContextBuilder;
use crate::callback::ShutdownCallback;
use crate::context::{Context, ContextView};
use crate::native::NativeConfig;

verus! {

/// Holds the one process-wide default context.
///
/// This type carries the instance; the process-wide, exactly-once slot that
/// every thread reaches is [`DefaultContextSlot`], which the embedding layer
/// places behind its process-global synchronization.
pub struct DefaultContext<C: ShutdownCallback> {
    /// The shared default context.
    pub global_default_context: Context<C>,
}

/// What [`DefaultContextSlot::get_or_init`] does to the slot's abstract
/// state: the first initialization builds a context from its caller's
/// arguments and configuration, and every later call leaves the slot exactly
/// as it is, its own arguments ignored.
pub open spec fn spec_get_or_init(
    slot: Option<ContextView>,
    args: Seq<String>,
    config: NativeConfig,
) -> Option<ContextView> {
    match slot {
        Some(v) => Some(v),
        None => Some(ContextBuilder::spec_built(args, None, config)),
    }
}

/// The slot behind the global default context: empty until the first caller
/// initializes it, then permanently holding that caller's instance.
///
/// The embedding layer wraps one value of this type in its process-wide,
/// lazily initialized lock, which makes `get_or_init` the exactly-once
/// initializer of the global default context: concurrent first callers are
/// serialized by that lock, one of them builds the instance, and every
/// caller afterwards observes the identical instance.
pub struct DefaultContextSlot<C: ShutdownCallback> {
    slot: Option<DefaultContext<C>>,
}

impl<C: ShutdownCallback> View for DefaultContextSlot<C> {
    type V = Option<ContextView>;

    closed spec fn view(&self) -> Option<ContextView> {
        match self.slot {
            Some(ref d) => Some(d.global_default_context@),
            None => None,
        }
    }
}

impl<C: ShutdownCallback> DefaultContextSlot<C> {
    /// A slot that no caller has initialized yet.
    pub fn new() -> (s: DefaultContextSlot<C>)
        ensures
            s@ is None,
    {
        DefaultContextSlot { slot: None }
    }

    /// Returns the global default context, building it from `args` and
    /// `config` only if no caller has built it yet.
    ///
    /// On every call after the first, the arguments and configuration are
    /// ignored: callers cannot reconfigure the default context after first
    /// use. The native layer must be healthy at first use, since there is no
    /// error path by which a caller of the ambient context could recover.
    pub fn get_or_init(&mut self, args: Vec<String>, config: &NativeConfig)
        requires
            !config.fail_init_args,
            !config.fail_init_alloc,
        ensures
            final(self)@ == spec_get_or_init(old(self)@, args@, *config),
    {
        if self.slot.is_none() {
            let built = ContextBuilder::new(args).native_config(*config).build::<C>();
            let context = match built {
                Ok(c) => c,
                Err(_) => vstd::pervasive::unreached(),
            };
            self.slot = Some(DefaultContext { global_default_context: context });
        }
    }

    /// Borrows the default context; the slot must have been initialized.
    pub fn get(&self) -> (r: &DefaultContext<C>)
        requires
            self@ is Some,
        ensures
            Some(r.global_default_context@) == self@,
    {
        match &self.slot {
            Some(d) => d,
            None => vstd::pervasive::unreached(),
        }
    }
}

/// The default context is initialized at most once, by its first caller:
/// however many calls follow, with whatever arguments and configuration,
/// the slot keeps exactly the instance the first call built, and the
/// instance reflects only the first caller's arguments.
pub proof fn lemma_first_caller_wins(
    args1: Seq<String>,
    config1: NativeConfig,
    args2: Seq<String>,
    config2: NativeConfig,
)
    ensures
        spec_get_or_init(spec_get_or_init(None, args1, config1), args2, config2)
            == spec_get_or_init(None, args1, config1),
        spec_get_or_init(None, args1, config1) == Some(
            ContextBuilder::spec_built(args1, None, config1),
        ),
{
}

} // verus!
