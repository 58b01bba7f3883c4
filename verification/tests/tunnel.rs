use std::rc::Rc;

use essentia_vpn_plugin::types::Load;
use essentia_vpn_plugin::{
    ConnectionStats, EncryptionAlgorithm, KeyExchangeProtocol, TunnelManager, TunnelState,
    VpnError, VpnServer,
};

fn tunnel_server(id: &str) -> VpnServer {
    VpnServer {
        id: id.to_string(),
        hostname: format!("{id}.example.net"),
        port: 51820,
        country: "eu-west".to_string(),
        city: "Dublin".to_string(),
        load: Load::from_bits(0.25f32.to_bits()),
        pqc_enabled: true,
    }
}

#[test]
fn new_manager_has_no_tunnel() {
    let manager = TunnelManager::new();
    assert!(manager.active_tunnel().is_none());
    assert!(!manager.is_connected());
    let by_default = TunnelManager::default();
    assert!(by_default.active_tunnel().is_none());
}

#[test]
fn create_makes_a_connecting_tunnel_with_zero_stats() {
    let mut manager = TunnelManager::new();
    let id = manager.create_tunnel(Rc::new(tunnel_server("a"))).unwrap();
    assert_eq!(id, 1);
    let tunnel = manager.active_tunnel().unwrap();
    assert_eq!(tunnel.id, 1);
    assert_eq!(tunnel.server.id, "a");
    assert_eq!(tunnel.server.hostname, "a.example.net");
    assert_eq!(tunnel.server.port, 51820);
    assert_eq!(tunnel.state, TunnelState::Connecting);
    assert_eq!(tunnel.encryption, EncryptionAlgorithm::Aes256GcmPqc);
    assert_eq!(tunnel.key_exchange, KeyExchangeProtocol::HybridMlKem);
    assert_eq!(tunnel.stats, ConnectionStats::default());
    assert_eq!(tunnel.stats.bytes_sent, 0);
    assert_eq!(tunnel.stats.bytes_received, 0);
    assert_eq!(tunnel.stats.uptime_secs, 0);
    assert_eq!(tunnel.stats.latency_ms, 0);
    assert_eq!(f32::from_bits(tunnel.stats.packet_loss_bits), 0.0);
}

#[test]
fn second_create_without_close_fails_with_tunnel_error() {
    let mut manager = TunnelManager::new();
    manager.create_tunnel(Rc::new(tunnel_server("a"))).unwrap();
    let second = manager.create_tunnel(Rc::new(tunnel_server("b")));
    match second {
        Err(VpnError::Tunnel(message)) => assert_eq!(message, "Tunnel already active"),
        other => panic!("expected a tunnel error, got {other:?}"),
    }
    assert_eq!(manager.active_tunnel().unwrap().server.id, "a");
    assert_eq!(manager.active_tunnel().unwrap().id, 1);
}

#[test]
fn create_after_close_yields_greater_id() {
    let mut manager = TunnelManager::new();
    let mut last = 0u64;
    for round in 0..5 {
        let id = manager.create_tunnel(Rc::new(tunnel_server("a"))).unwrap();
        assert!(id > last);
        assert_eq!(id, round + 1);
        last = id;
        manager.close_tunnel();
        assert!(manager.active_tunnel().is_none());
    }
}

#[test]
fn close_on_empty_manager_is_a_no_op() {
    let mut manager = TunnelManager::new();
    manager.close_tunnel();
    manager.close_tunnel();
    assert!(manager.active_tunnel().is_none());
    assert!(!manager.is_connected());
    assert_eq!(manager.create_tunnel(Rc::new(tunnel_server("a"))).unwrap(), 1);
}

#[test]
fn update_state_overwrites_any_state() {
    let mut manager = TunnelManager::new();
    manager.update_state(TunnelState::Connected);
    assert!(manager.active_tunnel().is_none());
    manager.create_tunnel(Rc::new(tunnel_server("a"))).unwrap();
    assert!(!manager.is_connected());
    manager.update_state(TunnelState::KeyExchange);
    assert_eq!(manager.active_tunnel().unwrap().state, TunnelState::KeyExchange);
    assert!(!manager.is_connected());
    manager.update_state(TunnelState::Connected);
    assert!(manager.is_connected());
    manager.update_state(TunnelState::Disconnected);
    assert_eq!(manager.active_tunnel().unwrap().state, TunnelState::Disconnected);
    assert_eq!(manager.active_tunnel().unwrap().id, 1);
    assert_eq!(manager.active_tunnel().unwrap().server.id, "a");
}

#[test]
fn tunnel_keeps_a_frozen_copy_of_the_server() {
    let mut manager = TunnelManager::new();
    let server = Rc::new(tunnel_server("a"));
    manager.create_tunnel(Rc::clone(&server)).unwrap();
    let mut changed = (*server).clone();
    changed.load = Load::from_bits(0.9f32.to_bits());
    assert_eq!(f32::from_bits(manager.active_tunnel().unwrap().server.load.to_bits()), 0.25);
    let copy = manager.active_tunnel().unwrap().clone();
    assert_eq!(copy.id, 1);
    assert_eq!(copy.server.city, "Dublin");
}

#[test]
fn defaults_of_the_enumerations() {
    assert_eq!(TunnelState::default(), TunnelState::Disconnected);
    assert_eq!(EncryptionAlgorithm::default(), EncryptionAlgorithm::Aes256Gcm);
    assert_eq!(KeyExchangeProtocol::default(), KeyExchangeProtocol::MlKem);
}

#[test]
fn errors_render_with_their_kind() {
    assert_eq!(
        VpnError::Connection("refused".to_string()).to_string(),
        "Connection error: refused"
    );
    assert_eq!(VpnError::KeyExchange("bad".to_string()).to_string(), "Key exchange error: bad");
    assert_eq!(VpnError::Tunnel("busy".to_string()).to_string(), "Tunnel error: busy");
    assert_eq!(
        VpnError::Authentication("denied".to_string()).to_string(),
        "Authentication error: denied"
    );
    assert_eq!(
        VpnError::Configuration("key".to_string()).to_string(),
        "Configuration error: key"
    );
    assert_eq!(VpnError::Network("down".to_string()).to_string(), "Network error: down");
    assert_eq!(VpnError::Network("down".to_string()).message(), "down");
}
