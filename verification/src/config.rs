//! Settings of the session orchestrator.

use vstd::prelude::*;

use crate::types::{EncryptionAlgorithm, KeyExchangeProtocol};

verus! {

/// Settings of the session orchestrator.
#[derive(Debug, Clone, Copy, PartialEq, Eq, Structural)]
pub struct VpnConfig {
    /// Block traffic outside the tunnel while a connection is set up or held.
    pub kill_switch: bool,
    /// Keep DNS queries inside the tunnel.
    pub dns_leak_protection: bool,
    /// Preferred encryption algorithm.
    pub encryption: EncryptionAlgorithm,
    /// Preferred key-exchange protocol.
    pub key_exchange: KeyExchangeProtocol,
    /// Reconnect after a lost connection.
    pub auto_reconnect: bool,
    /// Greatest number of reconnect attempts.
    pub max_reconnect_attempts: u32,
    /// Delay between reconnect attempts, in seconds.
    pub reconnect_delay_secs: u64,
    /// Let some traffic bypass the tunnel.
    pub split_tunneling: bool,
}

impl VpnConfig {
    /// The settings of a fresh orchestrator.
    pub open spec fn spec_default() -> VpnConfig {
        VpnConfig {
            kill_switch: true,
            dns_leak_protection: true,
            encryption: EncryptionAlgorithm::Aes256GcmPqc,
            key_exchange: KeyExchangeProtocol::HybridMlKem,
            auto_reconnect: true,
            max_reconnect_attempts: 5,
            reconnect_delay_secs: 5,
            split_tunneling: false,
        }
    }
}

impl Default for VpnConfig {
    fn default() -> (r: Self)
        ensures
            r == VpnConfig::spec_default(),
    {
        VpnConfig {
            kill_switch: true,
            dns_leak_protection: true,
            encryption: EncryptionAlgorithm::Aes256GcmPqc,
            key_exchange: KeyExchangeProtocol::HybridMlKem,
            auto_reconnect: true,
            max_reconnect_attempts: 5,
            reconnect_delay_secs: 5,
            split_tunneling: false,
        }
    }
}

} // verus!
