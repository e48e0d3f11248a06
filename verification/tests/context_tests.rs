use rclrs::{Context, ContextBuilder, NativeConfig, NoopCallback, RclrsError, RecordingCallback};

fn assert_send<T: Send>() {}
fn assert_sync<T: Sync>() {}

#[test]
fn context_is_send_and_sync() {
    assert_send::<Context<RecordingCallback>>();
    assert_sync::<Context<RecordingCallback>>();
}

#[test]
fn test_create_context() -> Result<(), RclrsError> {
    // If the context fails to be created, this will cause a panic
    let _ = Context::<NoopCallback>::new(vec![])?;
    Ok(())
}

#[test]
fn test_context_ok() -> Result<(), RclrsError> {
    // If the context fails to be created, this will cause a panic
    let created_context = Context::<NoopCallback>::new(vec![]).unwrap();
    assert!(created_context.ok());

    Ok(())
}

#[test]
fn test_builder_build_ok() {
    let context_builder = Context::<NoopCallback>::builder(vec![]);
    let built: Result<Context<NoopCallback>, RclrsError> = context_builder.build();
    assert!(built.is_ok());
}

#[test]
fn test_shutdown_idempotent() {
    let mut context = Context::<NoopCallback>::new(vec![]).unwrap();
    assert!(context.ok());
    assert_eq!(context.shutdown(), Ok(true));
    assert!(!context.ok());
    assert_eq!(context.shutdown(), Ok(false));
    assert!(!context.ok());
    assert_eq!(context.shutdown(), Ok(false));
    assert!(!context.ok());
}

#[test]
fn test_domain_id_precedence() {
    let mut config = NativeConfig::default();
    config.env_domain = Some(10);

    // Environment value, no explicit override.
    let from_env: Context<NoopCallback> =
        ContextBuilder::new(vec![]).native_config(config).build().unwrap();
    assert_eq!(from_env.domain_id(), Ok(10));

    // An explicit override beats the environment value.
    let overridden: Context<NoopCallback> =
        ContextBuilder::new(vec![]).native_config(config).domain_id(11).build().unwrap();
    assert_eq!(overridden.domain_id(), Ok(11));

    // Neither: the platform default.
    let plain: Context<NoopCallback> = ContextBuilder::new(vec![]).build().unwrap();
    assert_eq!(plain.domain_id(), Ok(0));
}

#[test]
fn test_domain_id_invalid_context() {
    let mut context = Context::<NoopCallback>::new(vec![]).unwrap();
    assert_eq!(context.domain_id(), Ok(0));
    assert_eq!(context.shutdown(), Ok(true));
    assert_eq!(context.domain_id(), Err(RclrsError::InvalidContext));
}

#[test]
fn test_exactly_once_finalize() {
    let mut context = Context::<NoopCallback>::new(vec![]).unwrap();
    assert_eq!(context.holders(), 1);
    context.share();
    context.share();
    assert_eq!(context.holders(), 3);
    // Only the release by the last holder finalizes.
    assert_eq!(context.release(), Ok(false));
    assert_eq!(context.release(), Ok(false));
    assert_eq!(context.release(), Ok(true));
    assert_eq!(context.holders(), 0);
    assert!(!context.ok());
}

#[test]
fn test_release_after_shutdown() {
    // An explicit shutdown first does not lead to a second finalize.
    let mut context = Context::<NoopCallback>::new(vec![]).unwrap();
    assert_eq!(context.shutdown(), Ok(true));
    assert_eq!(context.release(), Ok(true));
    assert_eq!(context.holders(), 0);
}

#[test]
fn test_callback_ordering() {
    let mut context = Context::<RecordingCallback>::new(vec![]).unwrap();
    context.add_on_shutdown_callback(RecordingCallback::new());
    assert_eq!(context.shutdown(), Ok(true));
    // The callback ran exactly once, and what it observed of the context's
    // validity was already false.
    assert_eq!(context.on_shutdown_callback().as_ref().unwrap().observed, vec![false]);
    // A later shutdown is a no-op and must not run the callback again.
    assert_eq!(context.shutdown(), Ok(false));
    assert_eq!(context.on_shutdown_callback().as_ref().unwrap().observed, vec![false]);
}

#[test]
fn test_callback_replace_last_wins() {
    let mut context = Context::<RecordingCallback>::new(vec![]).unwrap();
    let mut replaced = RecordingCallback::new();
    replaced.observed.push(true);
    context.add_on_shutdown_callback(replaced);
    context.add_on_shutdown_callback(RecordingCallback::new());
    assert_eq!(context.shutdown(), Ok(true));
    // Only the last registered callback ran; the first one was replaced.
    assert_eq!(context.on_shutdown_callback().as_ref().unwrap().observed, vec![false]);
}

#[test]
fn test_fatal_finalize_failure() {
    let mut config = NativeConfig::default();
    config.fail_fini = true;
    let mut context: Context<NoopCallback> =
        ContextBuilder::new(vec![]).native_config(config).build().unwrap();
    // The double's native finalize reports failure: the last release surfaces
    // the fatal error instead of a recoverable result; the embedding layer
    // aborts the process on it.
    assert_eq!(context.release(), Err(RclrsError::FinalizeFailure));
}

#[test]
fn test_fatal_shutdown_failure() {
    let mut config = NativeConfig::default();
    config.fail_shutdown = true;
    let mut context: Context<RecordingCallback> =
        ContextBuilder::new(vec![]).native_config(config).build().unwrap();
    context.add_on_shutdown_callback(RecordingCallback::new());
    assert_eq!(context.shutdown(), Err(RclrsError::FinalizeFailure));
    assert!(!context.ok());
    // The callback is not invoked on the fatal path.
    assert_eq!(context.on_shutdown_callback().as_ref().unwrap().observed, Vec::<bool>::new());
}

#[test]
fn test_construction_error_invalid_arguments() {
    let mut config = NativeConfig::default();
    config.fail_init_args = true;
    let r: Result<Context<NoopCallback>, RclrsError> =
        ContextBuilder::new(vec![String::from("--bad")]).native_config(config).build();
    assert_eq!(r.err(), Some(RclrsError::InvalidArguments));
}

#[test]
fn test_construction_error_allocation_failure() {
    let mut config = NativeConfig::default();
    config.fail_init_alloc = true;
    let r: Result<Context<NoopCallback>, RclrsError> =
        ContextBuilder::new(vec![]).native_config(config).build();
    assert_eq!(r.err(), Some(RclrsError::AllocationFailure));
}

#[test]
fn test_construction_error_arguments_checked_first() {
    let mut config = NativeConfig::default();
    config.fail_init_args = true;
    config.fail_init_alloc = true;
    let r: Result<Context<NoopCallback>, RclrsError> =
        ContextBuilder::new(vec![]).native_config(config).build();
    assert_eq!(r.err(), Some(RclrsError::InvalidArguments));
}
