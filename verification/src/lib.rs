//! Control plane of a VPN client: the lifecycle of a single secure tunnel,
//! the key-exchange handshake that gives it a shared secret, and the choice
//! of a server from a pool under load and capability constraints.

pub mod config;
pub mod errors;
pub mod flexforge;
pub mod key_exchange;
pub mod plugin;
pub mod router;
mod text;
pub mod traits;
pub mod tunnel;
pub mod types;

pub use config::VpnConfig;
pub use errors::{VpnError, VpnResult};
pub use flexforge::{ConnectionState, VpnPluginFlexForge, VpnUiConfig};
pub use key_exchange::PqcKeyExchange;
pub use plugin::VpnPlugin;
pub use router::NeuralRouter;
pub use traits::{TunnelProvider, VpnConnection};
pub use tunnel::TunnelManager;
pub use types::{
    ConnectionStats, EncryptionAlgorithm, KeyExchangeProtocol, Load, TunnelState, VpnServer,
    VpnTunnel,
};
