//! The data that the control plane works on: servers, tunnels, their
//! states and statistics, and the choices of cipher and key exchange.

use vstd::prelude::*;

verus! {

/// Representation of the load 1.0: the IEEE-754 single-precision pattern of one.
pub const LOAD_ONE_BITS: u32 = 0x3F80_0000;

/// Smallest pattern with the sign bit set: every pattern from here on
/// encodes a value that is not above zero.
pub const LOAD_SIGN_BIT: u32 = 0x8000_0000;

/// The pattern in `[0, LOAD_ONE_BITS]` nearest to the value that `bits` encodes.
///
/// On patterns without the sign bit the order of the patterns is the order
/// of the values, so everything above the pattern of one becomes one, and
/// every pattern with the sign bit becomes zero. A pattern that encodes no
/// number is treated by its position like any other.
pub open spec fn clamp_load_bits(bits: u32) -> u32 {
    if bits >= LOAD_SIGN_BIT {
        0
    } else if bits > LOAD_ONE_BITS {
        LOAD_ONE_BITS
    } else {
        bits
    }
}

/// A load gauge between 0.0 and 1.0, held as the IEEE-754 single-precision
/// bit pattern of its value. Within that range the unsigned order of the
/// patterns is the numeric order of the loads, and equal patterns are equal
/// loads.
#[derive(Debug, Clone, Copy, PartialEq, Eq, Structural)]
pub struct Load {
    bits: u32,
}

impl Load {
    #[verifier::type_invariant]
    spec fn in_range(self) -> bool {
        self.bits <= LOAD_ONE_BITS
    }

    /// The bit pattern of the load.
    pub closed spec fn spec_bits(self) -> u32 {
        self.bits
    }

    /// The load that `from_bits` makes of `bits`.
    pub closed spec fn spec_from_bits(bits: u32) -> Load {
        Load { bits: clamp_load_bits(bits) }
    }

    /// The load nearest to the value that `bits` encodes: the value itself
    /// where it lies between 0.0 and 1.0, else the nearer end of that range.
    pub fn from_bits(bits: u32) -> (r: Load)
        ensures
            r == Load::spec_from_bits(bits),
            r.spec_bits() == clamp_load_bits(bits),
            r.spec_bits() <= LOAD_ONE_BITS,
    {
        if bits >= LOAD_SIGN_BIT {
            Load { bits: 0 }
        } else if bits > LOAD_ONE_BITS {
            Load { bits: LOAD_ONE_BITS }
        } else {
            Load { bits }
        }
    }

    /// The bit pattern of the load, which never lies above that of 1.0.
    pub fn to_bits(&self) -> (r: u32)
        ensures
            r == self.spec_bits(),
            r <= LOAD_ONE_BITS,
    {
        proof {
            use_type_invariant(self);
        }
        self.bits
    }
}

/// A load made from a bit pattern has the clamped pattern, which lies in
/// the range from 0.0 to 1.0 whatever the pattern was.
pub proof fn lemma_load_from_bits(bits: u32)
    ensures
        Load::spec_from_bits(bits).spec_bits() == clamp_load_bits(bits),
        Load::spec_from_bits(bits).spec_bits() <= LOAD_ONE_BITS,
{
}

/// A candidate server of the pool.
#[derive(Debug)]
pub struct VpnServer {
    /// Server identifier.
    pub id: String,
    /// Server hostname or IP address.
    pub hostname: String,
    /// Server port.
    pub port: u16,
    /// Server country code.
    pub country: String,
    /// Server city.
    pub city: String,
    /// Server load, between 0.0 and 1.0.
    pub load: Load,
    /// Whether the server supports post-quantum key exchange.
    pub pqc_enabled: bool,
}

impl Clone for VpnServer {
    /// A copy that equals the server in every field.
    fn clone(&self) -> (res: Self)
        ensures
            res == *self,
    {
        VpnServer {
            id: self.id.clone(),
            hostname: self.hostname.clone(),
            port: self.port,
            country: self.country.clone(),
            city: self.city.clone(),
            load: self.load,
            pqc_enabled: self.pqc_enabled,
        }
    }
}

/// Lifecycle state of a tunnel.
#[derive(Debug, Clone, Copy, PartialEq, Eq, Structural)]
pub enum TunnelState {
    /// No tunnel, or the tunnel is down.
    Disconnected,
    /// The tunnel is being set up.
    Connecting,
    /// The key exchange is in progress.
    KeyExchange,
    /// The tunnel is up.
    Connected,
    /// The tunnel is being set up again after a loss.
    Reconnecting,
    /// The tunnel is being taken down.
    Disconnecting,
    /// The tunnel failed.
    Error,
}

impl Default for TunnelState {
    fn default() -> (r: Self)
        ensures
            r == TunnelState::Disconnected,
    {
        TunnelState::Disconnected
    }
}

/// Counters of a live connection.
#[derive(Debug, Clone, Copy, PartialEq, Eq, Structural)]
pub struct ConnectionStats {
    /// Bytes sent.
    pub bytes_sent: u64,
    /// Bytes received.
    pub bytes_received: u64,
    /// Connection uptime in seconds.
    pub uptime_secs: u64,
    /// Current latency in milliseconds.
    pub latency_ms: u32,
    /// Share of packets lost, as an IEEE-754 single-precision bit pattern.
    pub packet_loss_bits: u32,
}

impl ConnectionStats {
    /// The statistics of a tunnel that has carried nothing yet.
    pub open spec fn spec_zero() -> ConnectionStats {
        ConnectionStats {
            bytes_sent: 0,
            bytes_received: 0,
            uptime_secs: 0,
            latency_ms: 0,
            packet_loss_bits: 0,
        }
    }
}

impl Default for ConnectionStats {
    fn default() -> (r: Self)
        ensures
            r == ConnectionStats::spec_zero(),
    {
        ConnectionStats {
            bytes_sent: 0,
            bytes_received: 0,
            uptime_secs: 0,
            latency_ms: 0,
            packet_loss_bits: 0,
        }
    }
}

/// Cipher of the tunnel.
#[derive(Debug, Clone, Copy, PartialEq, Eq, Structural)]
pub enum EncryptionAlgorithm {
    /// AES-256-GCM.
    Aes256Gcm,
    /// ChaCha20-Poly1305.
    ChaCha20Poly1305,
    /// AES-256-GCM with a post-quantum hybrid key.
    Aes256GcmPqc,
}

impl Default for EncryptionAlgorithm {
    fn default() -> (r: Self)
        ensures
            r == EncryptionAlgorithm::Aes256Gcm,
    {
        EncryptionAlgorithm::Aes256Gcm
    }
}

/// Key-exchange protocol of the handshake.
#[derive(Debug, Clone, Copy, PartialEq, Eq, Structural)]
pub enum KeyExchangeProtocol {
    /// X25519.
    X25519,
    /// ML-KEM (post-quantum).
    MlKem,
    /// X25519 together with ML-KEM.
    HybridMlKem,
}

impl Default for KeyExchangeProtocol {
    fn default() -> (r: Self)
        ensures
            r == KeyExchangeProtocol::MlKem,
    {
        KeyExchangeProtocol::MlKem
    }
}

/// One connection attempt: the server it goes to, as it was when the tunnel
/// was made, its state, its choices of cipher and key exchange, and its
/// statistics.
#[derive(Debug)]
pub struct VpnTunnel {
    /// Tunnel identifier.
    pub id: u64,
    /// The server, as it was when the tunnel was made.
    pub server: VpnServer,
    /// Tunnel state.
    pub state: TunnelState,
    /// Encryption algorithm.
    pub encryption: EncryptionAlgorithm,
    /// Key-exchange protocol.
    pub key_exchange: KeyExchangeProtocol,
    /// Connection statistics.
    pub stats: ConnectionStats,
}

impl Clone for VpnTunnel {
    /// A copy that equals the tunnel in every field.
    fn clone(&self) -> (res: Self)
        ensures
            res == *self,
    {
        VpnTunnel {
            id: self.id,
            server: self.server.clone(),
            state: self.state,
            encryption: self.encryption,
            key_exchange: self.key_exchange,
            stats: self.stats,
        }
    }
}

} // verus!
