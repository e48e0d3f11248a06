use std::sync::{Arc, Mutex};

use once_cell::sync::OnceCell;
use rclrs::{DefaultContextSlot, NativeConfig, NoopCallback, SignalHandlerInstaller};

#[test]
fn test_default_context_first_caller_wins() {
    let mut slot: DefaultContextSlot<NoopCallback> = DefaultContextSlot::new();
    let mut config = NativeConfig::default();
    config.env_domain = Some(7);
    slot.get_or_init(vec![String::from("--first")], &config);
    assert_eq!(slot.get().global_default_context.domain_id(), Ok(7));

    // A later caller, with other arguments and another environment, still
    // sees the first caller's instance.
    let mut other_config = NativeConfig::default();
    other_config.env_domain = Some(42);
    slot.get_or_init(vec![String::from("--second")], &other_config);
    assert_eq!(slot.get().global_default_context.domain_id(), Ok(7));
}

#[test]
fn test_singleton_identity() {
    // Several callers, each with its own arguments and domain configuration,
    // ask for the shared default context through the same exactly-once cell
    // that the process-wide wiring uses; only the first initialization runs,
    // and every caller observes the identical instance, reflecting only the
    // first caller's configuration.
    let cell: Arc<OnceCell<Mutex<DefaultContextSlot<NoopCallback>>>> = Arc::new(OnceCell::new());
    let mut initializations: usize = 0;
    let mut domains = Vec::new();
    for i in 0..8usize {
        let cell = Arc::clone(&cell);
        let slot_mutex = cell.get_or_init(|| {
            initializations += 1;
            Mutex::new(DefaultContextSlot::new())
        });
        let mut slot = slot_mutex.lock().unwrap();
        let mut config = NativeConfig::default();
        config.env_domain = Some(i + 100);
        slot.get_or_init(vec![format!("--caller-{}", i)], &config);
        domains.push(slot.get().global_default_context.domain_id().unwrap());
    }
    assert_eq!(initializations, 1);
    for d in domains {
        assert_eq!(d, 100);
    }
}

#[test]
fn test_signal_handler_installed_once() {
    let mut installer = SignalHandlerInstaller::new();
    // Only the first attempt registers; repeating is an idempotent no-op.
    assert!(installer.try_install());
    assert!(!installer.try_install());
    assert!(!installer.try_install());
}
