//! The capabilities at the boundary of the control plane: the transport
//! that carries tunnels, and the connection that a status layer drives.

use vstd::prelude::*;

use crate::errors::VpnResult;
use crate::types::{ConnectionStats, TunnelState, VpnServer, VpnTunnel};

verus! {

/// A transport that makes and carries tunnels.
pub trait TunnelProvider: Send + Sync {
    /// Makes a tunnel to `server`.
    fn create_tunnel(&self, server: &VpnServer) -> VpnResult<VpnTunnel>;

    /// The state of the tunnel with the identifier `tunnel_id`.
    fn tunnel_state(&self, tunnel_id: u64) -> VpnResult<TunnelState>;

    /// The statistics of the tunnel with the identifier `tunnel_id`.
    fn tunnel_stats(&self, tunnel_id: u64) -> VpnResult<ConnectionStats>;

    /// Destroys the tunnel with the identifier `tunnel_id`.
    fn destroy_tunnel(&self, tunnel_id: u64) -> VpnResult<()>;
}

/// A connection that can be set up, taken down and asked for its state.
pub trait VpnConnection: Send + Sync {
    /// Connects to `server`.
    fn connect(&mut self, server: &VpnServer) -> VpnResult<()>;

    /// Disconnects from the current server.
    fn disconnect(&mut self) -> VpnResult<()>;

    /// Whether a connection is up.
    fn is_connected(&self) -> bool;

    /// The state of the connection.
    fn connection_state(&self) -> TunnelState;
}

} // verus!
