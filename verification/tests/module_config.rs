use core::time::Duration;

use norgopolis_module::Module;

#[test]
fn new_defaults_to_five_minutes() {
    let module = Module::new();
    assert_eq!(module.timeout, Duration::from_secs(60 * 5));
    assert_eq!(module.timeout.as_millis(), 300_000);
}

#[test]
fn default_matches_new() {
    assert_eq!(Module::default().timeout, Module::new().timeout);
}

#[test]
fn timeout_overrides_the_default() {
    let module = Module::new().timeout(Duration::from_secs(2));
    assert_eq!(module.timeout, Duration::from_secs(2));
    assert_eq!(module.timeout.as_millis(), 2_000);
}

#[test]
fn timeout_keeps_the_last_value_given() {
    let module = Module::new().timeout(Duration::from_secs(7)).timeout(Duration::from_secs(1));
    assert_eq!(module.timeout, Duration::from_secs(1));
}
