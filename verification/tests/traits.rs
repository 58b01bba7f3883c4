use std::rc::Rc;

use essentia_vpn_plugin::types::Load;
use essentia_vpn_plugin::{
    ConnectionStats, EncryptionAlgorithm, KeyExchangeProtocol, TunnelProvider, TunnelState,
    VpnConnection, VpnError, VpnPlugin, VpnResult, VpnServer, VpnTunnel,
};

fn edge_server() -> VpnServer {
    VpnServer {
        id: "edge".to_string(),
        hostname: "edge.example.net".to_string(),
        port: 443,
        country: "us-west".to_string(),
        city: "Seattle".to_string(),
        load: Load::from_bits(0.5f32.to_bits()),
        pqc_enabled: true,
    }
}

struct Session {
    plugin: VpnPlugin,
}

impl VpnConnection for Session {
    fn connect(&mut self, server: &VpnServer) -> VpnResult<()> {
        self.plugin.connect(Rc::new(server.clone()))
    }

    fn disconnect(&mut self) -> VpnResult<()> {
        self.plugin.disconnect();
        Ok(())
    }

    fn is_connected(&self) -> bool {
        self.plugin.is_connected()
    }

    fn connection_state(&self) -> TunnelState {
        self.plugin.state()
    }
}

struct SingleTunnel;

impl TunnelProvider for SingleTunnel {
    fn create_tunnel(&self, server: &VpnServer) -> VpnResult<VpnTunnel> {
        Ok(VpnTunnel {
            id: 7,
            server: server.clone(),
            state: TunnelState::Connecting,
            encryption: EncryptionAlgorithm::ChaCha20Poly1305,
            key_exchange: KeyExchangeProtocol::X25519,
            stats: ConnectionStats::default(),
        })
    }

    fn tunnel_state(&self, tunnel_id: u64) -> VpnResult<TunnelState> {
        if tunnel_id == 7 {
            Ok(TunnelState::Connecting)
        } else {
            Err(VpnError::Tunnel(format!("no tunnel {tunnel_id}")))
        }
    }

    fn tunnel_stats(&self, tunnel_id: u64) -> VpnResult<ConnectionStats> {
        if tunnel_id == 7 {
            Ok(ConnectionStats::default())
        } else {
            Err(VpnError::Tunnel(format!("no tunnel {tunnel_id}")))
        }
    }

    fn destroy_tunnel(&self, tunnel_id: u64) -> VpnResult<()> {
        if tunnel_id == 7 {
            Ok(())
        } else {
            Err(VpnError::Network("unreachable".to_string()))
        }
    }
}

#[test]
fn connection_trait_drives_the_orchestrator() {
    let mut session = Session { plugin: VpnPlugin::default() };
    assert!(!session.is_connected());
    assert_eq!(session.connection_state(), TunnelState::Disconnected);
    VpnConnection::connect(&mut session, &edge_server()).unwrap();
    assert!(session.is_connected());
    assert_eq!(session.connection_state(), TunnelState::Connected);
    assert!(matches!(
        VpnConnection::connect(&mut session, &edge_server()),
        Err(VpnError::Connection(_))
    ));
    VpnConnection::disconnect(&mut session).unwrap();
    assert!(!session.is_connected());
}

#[test]
fn provider_trait_carries_the_library_types() {
    let provider = SingleTunnel;
    let tunnel = provider.create_tunnel(&edge_server()).unwrap();
    assert_eq!(tunnel.id, 7);
    assert_eq!(tunnel.server.id, "edge");
    assert_eq!(provider.tunnel_state(7).unwrap(), TunnelState::Connecting);
    assert_eq!(provider.tunnel_stats(7).unwrap(), ConnectionStats::default());
    assert!(provider.destroy_tunnel(7).is_ok());
    assert!(matches!(provider.tunnel_state(8), Err(VpnError::Tunnel(_))));
    assert!(matches!(provider.destroy_tunnel(8), Err(VpnError::Network(_))));
}
