//! Shared lifecycle management for a middleware context: construction from
//! process arguments, validity checking, idempotent shutdown with callback
//! dispatch, reference-counted release with exactly-once finalization, and a
//! first-caller-wins default-context slot.

pub mod builder;
pub mod callback;
pub mod context;
pub mod default_context;
pub mod error;
pub mod native;
pub mod signal;

pub use builder::ContextBuilder;
pub use default_context::{DefaultContext, DefaultContextSlot};
pub use callback::{NoopCallback, RecordingCallback, ShutdownCallback};
pub use context::Context;
pub use error::RclrsError;
pub use native::{NativeConfig, NativeHandle};
pub use signal::SignalHandlerInstaller;
