use tars_shell::Plugin;
use tars_shell::registration_order;
use tars_shell::resolve_bind_host;
use tars_shell::startup_plan;

#[test]
fn bind_host_defaults_to_loopback() {
    assert_eq!(resolve_bind_host(None), "127.0.0.1");
}

#[test]
fn bind_host_takes_env_override_exactly() {
    assert_eq!(resolve_bind_host(Some("0.0.0.0".to_string())), "0.0.0.0");
    assert_eq!(
        resolve_bind_host(Some("bridge.example.test".to_string())),
        "bridge.example.test"
    );
    assert_eq!(resolve_bind_host(Some(String::new())), "");
}

#[test]
fn release_registration_order_is_fixed() {
    let order = registration_order(false);
    assert_eq!(
        order,
        vec![
            Plugin::Opener,
            Plugin::Fs,
            Plugin::Dialog,
            Plugin::Clipboard,
            Plugin::Sql
        ]
    );
}

#[test]
fn debug_registration_order_appends_bridge() {
    let order = registration_order(true);
    assert_eq!(
        order,
        vec![
            Plugin::Opener,
            Plugin::Fs,
            Plugin::Dialog,
            Plugin::Clipboard,
            Plugin::Sql,
            Plugin::McpBridge
        ]
    );
}

#[test]
fn release_plan_never_registers_bridge() {
    let with_env = startup_plan(false, Some("0.0.0.0".to_string()));
    let without_env = startup_plan(false, None);
    assert!(!with_env.plugins.contains(&Plugin::McpBridge));
    assert!(!without_env.plugins.contains(&Plugin::McpBridge));
    assert!(with_env.bridge_bind_host.is_none());
    assert!(without_env.bridge_bind_host.is_none());
}

#[test]
fn debug_plan_carries_resolved_bind_host() {
    let defaulted = startup_plan(true, None);
    assert_eq!(defaulted.bridge_bind_host.as_deref(), Some("127.0.0.1"));
    let overridden = startup_plan(true, Some("::1".to_string()));
    assert_eq!(overridden.bridge_bind_host.as_deref(), Some("::1"));
}

#[test]
fn registration_order_is_deterministic() {
    let first = startup_plan(true, None);
    let second = startup_plan(true, Some("anything at all".to_string()));
    assert_eq!(first.plugins, second.plugins);
    assert_eq!(registration_order(false), registration_order(false));
}
