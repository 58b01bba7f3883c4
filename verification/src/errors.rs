//! Errors of the VPN operations.

use vstd::prelude::*;
use vstd::string::StringExecFns;

verus! {

/// What went wrong in a VPN operation; each kind carries a message.
#[derive(Debug)]
pub enum VpnError {
    /// Already connected, no eligible server, or a failed connect.
    Connection(String),
    /// Empty or invalid handshake input, or a failed key generation.
    KeyExchange(String),
    /// A tunnel is already active, or a tunnel was not found.
    Tunnel(String),
    /// Authentication failed.
    Authentication(String),
    /// An unknown configuration key or value.
    Configuration(String),
    /// A failure of the transport.
    Network(String),
}

/// Result of a VPN operation.
pub type VpnResult<T> = Result<T, VpnError>;

impl VpnError {
    /// The message that the error carries, without the name of its kind.
    pub open spec fn spec_message(self) -> Seq<char> {
        match self {
            VpnError::Connection(m) => m@,
            VpnError::KeyExchange(m) => m@,
            VpnError::Tunnel(m) => m@,
            VpnError::Authentication(m) => m@,
            VpnError::Configuration(m) => m@,
            VpnError::Network(m) => m@,
        }
    }

    /// The words that name the error's kind in its rendering.
    pub open spec fn spec_prefix(self) -> Seq<char> {
        match self {
            VpnError::Connection(_) => "Connection error: "@,
            VpnError::KeyExchange(_) => "Key exchange error: "@,
            VpnError::Tunnel(_) => "Tunnel error: "@,
            VpnError::Authentication(_) => "Authentication error: "@,
            VpnError::Configuration(_) => "Configuration error: "@,
            VpnError::Network(_) => "Network error: "@,
        }
    }

    /// The message that the error carries.
    pub fn message(&self) -> (r: &str)
        ensures
            r@ == self.spec_message(),
    {
        match self {
            VpnError::Connection(m) => m.as_str(),
            VpnError::KeyExchange(m) => m.as_str(),
            VpnError::Tunnel(m) => m.as_str(),
            VpnError::Authentication(m) => m.as_str(),
            VpnError::Configuration(m) => m.as_str(),
            VpnError::Network(m) => m.as_str(),
        }
    }

    /// Renders the error for a reader: the name of its kind, then its message.
    pub fn to_string(&self) -> (r: String)
        ensures
            r@ == self.spec_prefix() + self.spec_message(),
    {
        let prefix = match self {
            VpnError::Connection(_) => "Connection error: ",
            VpnError::KeyExchange(_) => "Key exchange error: ",
            VpnError::Tunnel(_) => "Tunnel error: ",
            VpnError::Authentication(_) => "Authentication error: ",
            VpnError::Configuration(_) => "Configuration error: ",
            VpnError::Network(_) => "Network error: ",
        };
        prefix.to_owned().concat(self.message())
    }
}

} // verus!
