use std::rc::Rc;

use essentia_vpn_plugin::types::Load;
use essentia_vpn_plugin::{
    EncryptionAlgorithm, KeyExchangeProtocol, TunnelState, VpnConfig, VpnError, VpnPlugin,
    VpnServer,
};

fn target(id: &str, load: f32, pqc_enabled: bool) -> VpnServer {
    VpnServer {
        id: id.to_string(),
        hostname: format!("{id}.example.net"),
        port: 1194,
        country: "eu-central".to_string(),
        city: "Berlin".to_string(),
        load: Load::from_bits(load.to_bits()),
        pqc_enabled,
    }
}

#[test]
fn lib_test_plugin_creation() {
    let config = VpnConfig::default();
    assert!(config.kill_switch);
}

#[test]
fn plugin_test_plugin_creation() {
    let plugin = VpnPlugin::default();
    assert!(plugin.config().kill_switch);
}

#[test]
fn test_not_connected_initially() {
    let plugin = VpnPlugin::default();
    assert!(!plugin.is_connected());
}

#[test]
fn test_initial_state() {
    let plugin = VpnPlugin::default();
    assert_eq!(plugin.state(), TunnelState::Disconnected);
}

#[test]
fn test_connect_no_servers() {
    let mut plugin = VpnPlugin::default();
    let result = plugin.connect_optimal();
    assert!(result.is_err());
}

#[test]
fn default_config_values() {
    let config = VpnConfig::default();
    assert!(config.kill_switch);
    assert!(config.dns_leak_protection);
    assert_eq!(config.encryption, EncryptionAlgorithm::Aes256GcmPqc);
    assert_eq!(config.key_exchange, KeyExchangeProtocol::HybridMlKem);
    assert!(config.auto_reconnect);
    assert_eq!(config.max_reconnect_attempts, 5);
    assert_eq!(config.reconnect_delay_secs, 5);
    assert!(!config.split_tunneling);
}

#[test]
fn connect_optimal_on_empty_router_leaves_kill_switch_unchanged() {
    let mut plugin = VpnPlugin::default();
    assert!(!plugin.is_kill_switch_active());
    match plugin.connect_optimal() {
        Err(VpnError::Connection(message)) => assert_eq!(message, "No servers available"),
        other => panic!("expected a connection error, got {other:?}"),
    }
    assert!(!plugin.is_kill_switch_active());
    assert!(!plugin.is_connected());
    assert_eq!(plugin.state(), TunnelState::Disconnected);
}

#[test]
fn connect_optimal_without_eligible_server_fails() {
    let mut plugin = VpnPlugin::default();
    plugin.router_mut().add_server(target("a", 0.0, false));
    assert!(matches!(plugin.connect_optimal(), Err(VpnError::Connection(_))));
    assert!(!plugin.is_kill_switch_active());
    assert_eq!(plugin.router().servers().len(), 1);
}

#[test]
fn connect_engages_kill_switch_and_disconnect_releases_it() {
    let mut plugin = VpnPlugin::default();
    assert!(plugin.config().kill_switch);
    plugin.connect(Rc::new(target("a", 0.3, true))).unwrap();
    assert!(plugin.is_kill_switch_active());
    assert!(plugin.is_connected());
    assert_eq!(plugin.state(), TunnelState::Connected);
    plugin.disconnect();
    assert!(!plugin.is_kill_switch_active());
    assert!(!plugin.is_connected());
    assert_eq!(plugin.state(), TunnelState::Disconnected);
}

#[test]
fn connect_without_kill_switch_leaves_it_released() {
    let mut config = VpnConfig::default();
    config.kill_switch = false;
    let mut plugin = VpnPlugin::new(config);
    plugin.connect(Rc::new(target("a", 0.3, true))).unwrap();
    assert!(!plugin.is_kill_switch_active());
    assert!(plugin.is_connected());
    plugin.disconnect();
    assert!(!plugin.is_kill_switch_active());
}

#[test]
fn connect_while_connected_fails_with_connection_error() {
    let mut plugin = VpnPlugin::default();
    plugin.connect(Rc::new(target("a", 0.3, true))).unwrap();
    match plugin.connect(Rc::new(target("b", 0.1, true))) {
        Err(VpnError::Connection(message)) => assert_eq!(message, "Already connected"),
        other => panic!("expected a connection error, got {other:?}"),
    }
    assert!(plugin.is_connected());
    assert!(plugin.is_kill_switch_active());
}

#[test]
fn disconnect_is_idempotent() {
    let mut plugin = VpnPlugin::default();
    plugin.disconnect();
    assert!(!plugin.is_connected());
    assert!(!plugin.is_kill_switch_active());
    plugin.connect(Rc::new(target("a", 0.3, true))).unwrap();
    plugin.disconnect();
    plugin.disconnect();
    assert!(!plugin.is_connected());
    assert!(!plugin.is_kill_switch_active());
    assert_eq!(plugin.state(), TunnelState::Disconnected);
}

#[test]
fn connect_optimal_picks_least_loaded_pqc_server() {
    let mut plugin = VpnPlugin::default();
    plugin.router_mut().add_server(target("a", 0.8, true));
    plugin.router_mut().add_server(target("b", 0.0, false));
    plugin.router_mut().add_server(target("c", 0.2, true));
    plugin.router_mut().add_server(target("d", 0.2, true));
    plugin.connect_optimal().unwrap();
    assert!(plugin.is_connected());
    assert!(plugin.is_kill_switch_active());
    plugin.disconnect();
    plugin.router_mut().update_server_load("a", 0.05f32.to_bits());
    plugin.connect_optimal().unwrap();
    assert!(plugin.is_connected());
    assert_eq!(plugin.router().servers().len(), 4);
}

#[test]
fn reconnect_after_disconnect_succeeds() {
    let mut plugin = VpnPlugin::default();
    for _ in 0..3 {
        plugin.connect(Rc::new(target("a", 0.3, true))).unwrap();
        assert_eq!(plugin.state(), TunnelState::Connected);
        plugin.disconnect();
        assert_eq!(plugin.state(), TunnelState::Disconnected);
    }
}

#[test]
fn connect_completes_the_handshake_under_every_protocol() {
    for protocol in [
        KeyExchangeProtocol::X25519,
        KeyExchangeProtocol::MlKem,
        KeyExchangeProtocol::HybridMlKem,
    ] {
        let mut config = VpnConfig::default();
        config.key_exchange = protocol;
        let mut plugin = VpnPlugin::new(config);
        plugin.connect(Rc::new(target("a", 0.3, true))).unwrap();
        assert!(plugin.is_connected());
        assert_eq!(plugin.state(), TunnelState::Connected);
        assert_eq!(plugin.config().key_exchange, protocol);
        plugin.disconnect();
        assert!(!plugin.is_connected());
    }
}
