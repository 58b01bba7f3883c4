//! The session orchestrator: it composes the router, the key exchange and
//! the tunnel state machine into connect and disconnect, and owns the kill
//! switch.

use std::rc::Rc;
use vstd::prelude::*;

use crate::config::VpnConfig;
use crate::errors::{VpnError, VpnResult};
use crate::key_exchange::{
    erase, generated_public_key, handshake_secret, lemma_handshake_secret_len, PqcKeyExchange,
};
use crate::router::{best_server, lemma_none_eligible_no_best, none_eligible, NeuralRouter};
use crate::tunnel::{fresh_tunnel, TunnelManager};
use crate::types::{TunnelState, VpnServer, VpnTunnel};

verus! {

/// The session orchestrator.
pub struct VpnPlugin {
    config: VpnConfig,
    tunnel_manager: TunnelManager,
    key_exchange: Option<PqcKeyExchange>,
    router: NeuralRouter,
    kill_switch_active: bool,
}

impl VpnPlugin {
    /// The settings.
    pub closed spec fn spec_config(self) -> VpnConfig {
        self.config
    }

    /// The tunnel state machine.
    pub closed spec fn spec_tunnels(self) -> TunnelManager {
        self.tunnel_manager
    }

    /// The handshake of the current session, if there is one.
    pub closed spec fn spec_key_exchange(self) -> Option<PqcKeyExchange> {
        self.key_exchange
    }

    /// The router.
    pub closed spec fn spec_router(self) -> NeuralRouter {
        self.router
    }

    /// Whether the kill switch is engaged.
    pub closed spec fn spec_kill_switch_active(self) -> bool {
        self.kill_switch_active
    }

    /// The orchestrator with `router` in place of its own.
    pub closed spec fn spec_with_router(self, router: NeuralRouter) -> VpnPlugin {
        VpnPlugin { router, ..self }
    }

    /// An orchestrator is what its five parts are.
    pub proof fn lemma_by_parts(self, other: VpnPlugin)
        requires
            self.spec_config() == other.spec_config(),
            self.spec_tunnels() == other.spec_tunnels(),
            self.spec_key_exchange() == other.spec_key_exchange(),
            self.spec_router() == other.spec_router(),
            self.spec_kill_switch_active() == other.spec_kill_switch_active(),
        ensures
            self == other,
    {
    }

    /// Replacing the router changes the router and nothing else.
    pub proof fn lemma_with_router(self, router: NeuralRouter)
        ensures
            self.spec_with_router(router).spec_router() == router,
            self.spec_with_router(router).spec_config() == self.spec_config(),
            self.spec_with_router(router).spec_tunnels() == self.spec_tunnels(),
            self.spec_with_router(router).spec_key_exchange() == self.spec_key_exchange(),
            self.spec_with_router(router).spec_kill_switch_active()
                == self.spec_kill_switch_active(),
    {
    }

    /// Whether a tunnel is active and its state is `Connected`.
    pub open spec fn spec_is_connected(self) -> bool {
        self.spec_tunnels().spec_is_connected()
    }

    /// The state of the active tunnel, or `Disconnected` without one.
    pub open spec fn spec_state(self) -> TunnelState {
        match self.spec_tunnels().spec_active() {
            Some(t) => t.state,
            None => TunnelState::Disconnected,
        }
    }

    /// Whether the kill switch is engaged once `connect` has passed its
    /// first test: it is engaged where the settings ask for it, and stays
    /// engaged where it was.
    pub open spec fn kill_switch_after_engage(self) -> bool {
        self.spec_config().kill_switch || self.spec_kill_switch_active()
    }

    /// What `connect` does: from `pre` and `server` to `post` and the result `r`.
    ///
    /// - Already connected: a `Connection` error, and nothing changes.
    /// - Otherwise the kill switch is engaged first, where the settings ask
    ///   for it, and stays engaged whatever follows.
    /// - A tunnel that is active without being connected, or no identifier
    ///   left: a `Tunnel` error; but for the kill switch nothing changes.
    /// - Otherwise success: the new tunnel goes to `server` and is
    ///   `Connected`, and the handshake of the session holds the public key
    ///   that it generated under the configured protocol and the secret of
    ///   the completed handshake, of 32 bytes.
    pub open spec fn connected(
        pre: VpnPlugin,
        server: VpnServer,
        post: VpnPlugin,
        r: VpnResult<()>,
    ) -> bool {
        &&& post.spec_config() == pre.spec_config()
        &&& post.spec_router() == pre.spec_router()
        &&& if pre.spec_is_connected() {
            &&& r matches Err(e)
            &&& e is Connection
            &&& e.spec_message() == "Already connected"@
            &&& post == pre
        } else {
            &&& post.spec_kill_switch_active() == pre.kill_switch_after_engage()
            &&& if pre.spec_tunnels().spec_active() is Some || pre.spec_tunnels().spec_exhausted() {
                &&& r matches Err(e)
                &&& e is Tunnel
                &&& TunnelManager::created(
                    pre.spec_tunnels(),
                    server,
                    post.spec_tunnels(),
                    Err(e),
                )
                &&& post.spec_tunnels() == pre.spec_tunnels()
                &&& post.spec_key_exchange() == pre.spec_key_exchange()
            } else {
                &&& r is Ok
                &&& post.spec_tunnels().spec_next_id() == pre.spec_tunnels().spec_next_id() + 1
                &&& post.spec_tunnels().spec_active() == Some(
                    VpnTunnel {
                        state: TunnelState::Connected,
                        ..fresh_tunnel(pre.spec_tunnels().spec_next_id(), server)
                    },
                )
                &&& post.spec_key_exchange() matches Some(exchange)
                &&& exchange.spec_protocol() == pre.spec_config().key_exchange
                &&& exchange.spec_public_key() == Some(
                    generated_public_key(pre.spec_config().key_exchange),
                )
                &&& exchange.spec_shared_secret() == Some(
                    handshake_secret(pre.spec_config().key_exchange),
                )
                &&& exchange.spec_shared_secret() matches Some(secret) && secret.len() == 32
            }
        }
    }

    /// What `connect_optimal` does: without an eligible server in the pool
    /// a `Connection` error, and nothing changes; otherwise what `connect`
    /// does with the best server overall.
    pub open spec fn connected_optimal(pre: VpnPlugin, post: VpnPlugin, r: VpnResult<()>) -> bool {
        match best_server(pre.spec_router()@, None) {
            Some(server) => Self::connected(pre, server, post, r),
            None => {
                &&& r matches Err(e)
                &&& e is Connection
                &&& e.spec_message() == "No servers available"@
                &&& post == pre
            },
        }
    }

    /// What `disconnect` does: no tunnel and no handshake are left, and the
    /// kill switch is released where the settings had asked for it.
    pub open spec fn disconnected(pre: VpnPlugin, post: VpnPlugin) -> bool {
        &&& post.spec_config() == pre.spec_config()
        &&& post.spec_router() == pre.spec_router()
        &&& post.spec_tunnels().spec_active() is None
        &&& post.spec_tunnels().spec_next_id() == pre.spec_tunnels().spec_next_id()
        &&& post.spec_key_exchange() is None
        &&& post.spec_kill_switch_active() == (!pre.spec_config().kill_switch
            && pre.spec_kill_switch_active())
    }

    /// An orchestrator with the settings `config`: no tunnel, no handshake,
    /// an empty pool, and the kill switch released.
    pub fn new(config: VpnConfig) -> (r: Self)
        ensures
            r.spec_config() == config,
            r.spec_tunnels().spec_active() is None,
            r.spec_tunnels().spec_next_id() == 1,
            r.spec_key_exchange() is None,
            r.spec_router()@ == Seq::<VpnServer>::empty(),
            !r.spec_kill_switch_active(),
    {
        VpnPlugin {
            config,
            tunnel_manager: TunnelManager::new(),
            key_exchange: None,
            router: NeuralRouter::new(),
            kill_switch_active: false,
        }
    }

    /// The settings.
    pub fn config(&self) -> (r: &VpnConfig)
        ensures
            *r == self.spec_config(),
    {
        &self.config
    }

    /// The router.
    pub fn router(&self) -> (r: &NeuralRouter)
        ensures
            *r == self.spec_router(),
    {
        &self.router
    }

    /// The router, to add servers to its pool and to update their loads.
    /// Whatever the caller does to it changes nothing else of the
    /// orchestrator.
    pub fn router_mut(&mut self) -> (r: &mut NeuralRouter)
        ensures
            *r == old(self).spec_router(),
            *final(self) == old(self).spec_with_router(*final(r)),
    {
        &mut self.router
    }

    /// Connects to `server`.
    ///
    /// The handshake is run to its end before the tunnel counts as
    /// connected: the session generates its key pair, the peer's half
    /// encapsulates against the public key, and the session recovers the
    /// secret from the ciphertext. The peer's half runs on an engine of its
    /// own here; carrying the two messages to a remote peer is the
    /// transport's part. Every copy of key material that leaves an engine is
    /// overwritten with zero bytes before it is let go.
    pub fn connect(&mut self, server: Rc<VpnServer>) -> (r: VpnResult<()>)
        ensures
            Self::connected(*old(self), *server, *final(self), r),
    {
        if self.is_connected() {
            return Err(VpnError::Connection("Already connected".to_owned()));
        }
        if self.config.kill_switch {
            self.activate_kill_switch();
        }
        match self.tunnel_manager.create_tunnel(server) {
            Ok(_) => {},
            Err(e) => {
                return Err(e);
            },
        }
        proof {
            lemma_handshake_secret_len(self.config.key_exchange);
        }
        let mut key_exchange = PqcKeyExchange::new(self.config.key_exchange);
        let mut public_key: Vec<u8> = match key_exchange.generate_keypair() {
            Ok(key) => key,
            Err(e) => {
                return Err(e);
            },
        };
        let mut peer = PqcKeyExchange::new(self.config.key_exchange);
        let encapsulated = peer.encapsulate(public_key.as_slice());
        erase(&mut public_key);
        let mut ciphertext: Vec<u8> = match encapsulated {
            Ok(pair) => {
                let mut peer_secret: Vec<u8> = pair.1;
                erase(&mut peer_secret);
                pair.0
            },
            Err(e) => {
                return Err(e);
            },
        };
        let decapsulated = key_exchange.decapsulate(ciphertext.as_slice());
        erase(&mut ciphertext);
        match decapsulated {
            Ok(secret) => {
                let mut recovered: Vec<u8> = secret;
                erase(&mut recovered);
            },
            Err(e) => {
                return Err(e);
            },
        }
        self.key_exchange = Some(key_exchange);
        self.tunnel_manager.update_state(TunnelState::Connected);
        Ok(())
    }

    /// Connects to the best server of the pool.
    pub fn connect_optimal(&mut self) -> (r: VpnResult<()>)
        ensures
            Self::connected_optimal(*old(self), *final(self), r),
    {
        let chosen: Option<VpnServer> = match self.router.find_optimal_server() {
            Some(s) => Some(s.clone()),
            None => None,
        };
        match chosen {
            Some(server) => self.connect(Rc::new(server)),
            None => Err(VpnError::Connection("No servers available".to_owned())),
        }
    }

    /// Closes the tunnel, erases the key material of the session, and
    /// releases the kill switch where the settings had asked for it.
    pub fn disconnect(&mut self)
        ensures
            Self::disconnected(*old(self), *final(self)),
        opens_invariants none
        no_unwind
    {
        self.tunnel_manager.close_tunnel();
        match &mut self.key_exchange {
            Some(exchange) => {
                exchange.clear();
            },
            None => {},
        }
        self.key_exchange = None;
        if self.config.kill_switch {
            self.deactivate_kill_switch();
        }
    }

    /// Whether a tunnel is active and its state is `Connected`.
    pub fn is_connected(&self) -> (r: bool)
        ensures
            r == self.spec_is_connected(),
    {
        self.tunnel_manager.is_connected()
    }

    /// The state of the active tunnel, or `Disconnected` without one.
    pub fn state(&self) -> (r: TunnelState)
        ensures
            r == self.spec_state(),
    {
        match self.tunnel_manager.active_tunnel() {
            Some(t) => t.state,
            None => TunnelState::Disconnected,
        }
    }

    /// Engages the kill switch.
    fn activate_kill_switch(&mut self)
        ensures
            *final(self) == (VpnPlugin { kill_switch_active: true, ..*old(self) }),
    {
        self.kill_switch_active = true;
    }

    /// Releases the kill switch.
    fn deactivate_kill_switch(&mut self)
        ensures
            *final(self) == (VpnPlugin { kill_switch_active: false, ..*old(self) }),
        opens_invariants none
        no_unwind
    {
        self.kill_switch_active = false;
    }

    /// Whether the kill switch is engaged.
    pub fn is_kill_switch_active(&self) -> (r: bool)
        ensures
            r == self.spec_kill_switch_active(),
    {
        self.kill_switch_active
    }
}

impl Default for VpnPlugin {
    fn default() -> (r: Self)
        ensures
            r.spec_config() == VpnConfig::spec_default(),
            r.spec_tunnels().spec_active() is None,
            r.spec_tunnels().spec_next_id() == 1,
            r.spec_key_exchange() is None,
            r.spec_router()@ == Seq::<VpnServer>::empty(),
            !r.spec_kill_switch_active(),
    {
        VpnPlugin::new(VpnConfig::default())
    }
}

impl Drop for VpnPlugin {
    /// Neither the tunnel nor the key material outlives the orchestrator.
    fn drop(&mut self)
        opens_invariants none
        no_unwind
    {
        self.disconnect();
    }
}

/// A second `disconnect` changes nothing.
pub proof fn lemma_disconnect_is_idempotent(start: VpnPlugin, middle: VpnPlugin, end: VpnPlugin)
    requires
        VpnPlugin::disconnected(start, middle),
        VpnPlugin::disconnected(middle, end),
    ensures
        end == middle,
{
    end.spec_tunnels().lemma_by_parts(middle.spec_tunnels());
    end.lemma_by_parts(middle);
}

/// With the kill switch configured, a successful `connect` leaves it
/// engaged and the tunnel `Connected`, with the secret of the handshake
/// held, and a `disconnect` after it releases it and leaves neither a tunnel
/// nor key material.
pub proof fn lemma_connect_then_disconnect(
    start: VpnPlugin,
    server: VpnServer,
    middle: VpnPlugin,
    r: VpnResult<()>,
    end: VpnPlugin,
)
    requires
        start.spec_config().kill_switch,
        VpnPlugin::connected(start, server, middle, r),
        r is Ok,
        VpnPlugin::disconnected(middle, end),
    ensures
        middle.spec_kill_switch_active(),
        middle.spec_state() == TunnelState::Connected,
        middle.spec_is_connected(),
        middle.spec_key_exchange() matches Some(exchange)
            && exchange.spec_shared_secret() matches Some(secret) && secret.len() == 32,
        !end.spec_kill_switch_active(),
        end.spec_tunnels().spec_active() is None,
        end.spec_state() == TunnelState::Disconnected,
        end.spec_key_exchange() is None,
{
}

/// The kill switch is engaged before the tunnel is made: where `connect`
/// fails after its first test, a configured kill switch is engaged all the
/// same, and only a `disconnect` releases it.
pub proof fn lemma_kill_switch_outlasts_failure(
    pre: VpnPlugin,
    server: VpnServer,
    post: VpnPlugin,
    r: VpnResult<()>,
)
    requires
        pre.spec_config().kill_switch,
        !pre.spec_is_connected(),
        VpnPlugin::connected(pre, server, post, r),
    ensures
        post.spec_kill_switch_active(),
{
}

/// Without an eligible server in the pool `connect_optimal` fails with a
/// `Connection` error and changes nothing, the kill switch included.
pub proof fn lemma_connect_optimal_without_server(
    pre: VpnPlugin,
    post: VpnPlugin,
    r: VpnResult<()>,
)
    requires
        none_eligible(pre.spec_router()@, None),
        VpnPlugin::connected_optimal(pre, post, r),
    ensures
        r matches Err(e) && e is Connection,
        post == pre,
        post.spec_kill_switch_active() == pre.spec_kill_switch_active(),
{
    lemma_none_eligible_no_best(pre.spec_router()@, None);
}

/// A tunnel that `connect` has brought to `Connected` has its shared
/// secret: the handshake of the session holds 32 bytes, and they are what
/// the peer's half derived.
pub proof fn lemma_connected_holds_secret(
    pre: VpnPlugin,
    server: VpnServer,
    post: VpnPlugin,
    r: VpnResult<()>,
)
    requires
        VpnPlugin::connected(pre, server, post, r),
        r is Ok,
    ensures
        post.spec_is_connected(),
        post.spec_key_exchange() matches Some(exchange) && exchange.spec_shared_secret() == Some(
            handshake_secret(pre.spec_config().key_exchange),
        ),
        handshake_secret(pre.spec_config().key_exchange).len() == 32,
{
    lemma_handshake_secret_len(pre.spec_config().key_exchange);
}

} // verus!
