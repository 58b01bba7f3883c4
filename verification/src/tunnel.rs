//! The tunnel state machine: at most one active tunnel, and identifiers
//! that are handed out once.

use std::rc::Rc;
use vstd::prelude::*;

use crate::errors::{VpnError, VpnResult};
use crate::types::{
    ConnectionStats, EncryptionAlgorithm, KeyExchangeProtocol, TunnelState, VpnServer, VpnTunnel,
};

verus! {

/// Owner of the single active tunnel, if there is one.
pub struct TunnelManager {
    active_tunnel: Option<VpnTunnel>,
    next_tunnel_id: u64,
}

/// The tunnel that `create_tunnel` makes for `server` under the identifier `id`.
pub open spec fn fresh_tunnel(id: u64, server: VpnServer) -> VpnTunnel {
    VpnTunnel {
        id,
        server,
        state: TunnelState::Connecting,
        encryption: EncryptionAlgorithm::Aes256GcmPqc,
        key_exchange: KeyExchangeProtocol::HybridMlKem,
        stats: ConnectionStats::spec_zero(),
    }
}

impl TunnelManager {
    /// The active tunnel, if there is one.
    pub closed spec fn spec_active(self) -> Option<VpnTunnel> {
        self.active_tunnel
    }

    /// The identifier that the next tunnel will get.
    pub closed spec fn spec_next_id(self) -> u64 {
        self.next_tunnel_id
    }

    /// A manager is what its active tunnel and its next identifier are.
    pub proof fn lemma_by_parts(self, other: TunnelManager)
        requires
            self.spec_active() == other.spec_active(),
            self.spec_next_id() == other.spec_next_id(),
        ensures
            self == other,
    {
    }

    /// Whether a tunnel is active and its state is `Connected`.
    pub open spec fn spec_is_connected(self) -> bool {
        match self.spec_active() {
            Some(t) => t.state == TunnelState::Connected,
            None => false,
        }
    }

    /// Whether no identifier is left to hand out.
    pub open spec fn spec_exhausted(self) -> bool {
        self.spec_next_id() == u64::MAX
    }

    /// What `create_tunnel` does: from `pre` and `server` to `post` and the result `r`.
    ///
    /// It succeeds exactly where no tunnel is active and an identifier is
    /// left. Then the new tunnel has the next identifier, a copy of the
    /// server, the state `Connecting` and zeroed statistics. Where it fails
    /// the manager stays as it was.
    pub open spec fn created(
        pre: TunnelManager,
        server: VpnServer,
        post: TunnelManager,
        r: VpnResult<u64>,
    ) -> bool {
        match r {
            Ok(id) => {
                &&& pre.spec_active() is None
                &&& !pre.spec_exhausted()
                &&& id == pre.spec_next_id()
                &&& post.spec_next_id() == id + 1
                &&& post.spec_active() == Some(fresh_tunnel(id, server))
            },
            Err(e) => {
                &&& post == pre
                &&& pre.spec_active() is Some || pre.spec_exhausted()
                &&& e is Tunnel
                &&& pre.spec_active() is Some ==> e.spec_message() == "Tunnel already active"@
                &&& pre.spec_active() is None ==> e.spec_message()
                    == "Tunnel identifiers exhausted"@
            },
        }
    }

    /// What `update_state` does: the active tunnel, if any, gets `state`.
    pub open spec fn state_updated(pre: TunnelManager, state: TunnelState, post: TunnelManager) -> bool {
        &&& post.spec_next_id() == pre.spec_next_id()
        &&& post.spec_active() == match pre.spec_active() {
            Some(t) => Some(VpnTunnel { state, ..t }),
            None => None,
        }
    }

    /// What `close_tunnel` does: no tunnel is active afterwards.
    pub open spec fn closed(pre: TunnelManager, post: TunnelManager) -> bool {
        &&& post.spec_next_id() == pre.spec_next_id()
        &&& post.spec_active() is None
    }

    /// A manager without a tunnel, whose first identifier is 1.
    pub fn new() -> (r: Self)
        ensures
            r.spec_active() is None,
            r.spec_next_id() == 1,
    {
        TunnelManager { active_tunnel: None, next_tunnel_id: 1 }
    }

    /// Makes a tunnel to `server` and returns its identifier.
    ///
    /// Fails with a `Tunnel` error where a tunnel is already active, or where
    /// every identifier has been handed out; the manager is then unchanged.
    pub fn create_tunnel(&mut self, server: Rc<VpnServer>) -> (r: VpnResult<u64>)
        ensures
            Self::created(*old(self), *server, *final(self), r),
    {
        if self.active_tunnel.is_some() {
            return Err(VpnError::Tunnel("Tunnel already active".to_owned()));
        }
        if self.next_tunnel_id == u64::MAX {
            return Err(VpnError::Tunnel("Tunnel identifiers exhausted".to_owned()));
        }
        let id: u64 = self.next_tunnel_id;
        self.next_tunnel_id = id + 1;
        self.active_tunnel = Some(
            VpnTunnel {
                id,
                server: (*server).clone(),
                state: TunnelState::Connecting,
                encryption: EncryptionAlgorithm::Aes256GcmPqc,
                key_exchange: KeyExchangeProtocol::HybridMlKem,
                stats: ConnectionStats::default(),
            },
        );
        Ok(id)
    }

    /// The active tunnel, if there is one.
    pub fn active_tunnel(&self) -> (r: Option<&VpnTunnel>)
        ensures
            match r {
                Some(t) => self.spec_active() == Some(*t),
                None => self.spec_active() is None,
            },
    {
        self.active_tunnel.as_ref()
    }

    /// Gives the active tunnel the state `state`; does nothing without a tunnel.
    pub fn update_state(&mut self, state: TunnelState)
        ensures
            Self::state_updated(*old(self), state, *final(self)),
    {
        match &mut self.active_tunnel {
            Some(tunnel) => {
                tunnel.state = state;
            },
            None => {},
        }
    }

    /// Takes the active tunnel through `Disconnecting` and discards it; does
    /// nothing without a tunnel.
    pub fn close_tunnel(&mut self)
        ensures
            Self::closed(*old(self), *final(self)),
            old(self).spec_active() is None ==> *final(self) == *old(self),
        opens_invariants none
        no_unwind
    {
        match &mut self.active_tunnel {
            Some(tunnel) => {
                tunnel.state = TunnelState::Disconnecting;
            },
            None => {},
        }
        self.active_tunnel = None;
    }

    /// Whether a tunnel is active and its state is `Connected`.
    pub fn is_connected(&self) -> (r: bool)
        ensures
            r == self.spec_is_connected(),
    {
        match &self.active_tunnel {
            Some(t) => t.state == TunnelState::Connected,
            None => false,
        }
    }
}

impl Default for TunnelManager {
    fn default() -> (r: Self)
        ensures
            r.spec_active() is None,
            r.spec_next_id() == 1,
    {
        TunnelManager::new()
    }
}

/// Whether the state machine can go from `pre` to `post` by one operation:
/// a `create_tunnel`, whatever its server and result, an `update_state`, or
/// a `close_tunnel`.
pub open spec fn step(pre: TunnelManager, post: TunnelManager) -> bool {
    ||| exists|server: VpnServer, r: VpnResult<u64>|
        TunnelManager::created(pre, server, post, r)
    ||| exists|state: TunnelState| TunnelManager::state_updated(pre, state, post)
    ||| TunnelManager::closed(pre, post)
}

/// Whether each state of `states` follows from the one before it by one operation.
pub open spec fn is_run(states: Seq<TunnelManager>) -> bool {
    forall|k: int| 0 <= k < states.len() - 1 ==> step(#[trigger] states[k], states[k + 1])
}

/// While a tunnel is active a further `create_tunnel` fails with a `Tunnel`
/// error and changes nothing, whatever states the tunnel was given in between.
pub proof fn lemma_second_create_fails(
    m0: TunnelManager,
    first: VpnServer,
    m1: TunnelManager,
    r1: VpnResult<u64>,
    state: TunnelState,
    m2: TunnelManager,
    second: VpnServer,
    m3: TunnelManager,
    r2: VpnResult<u64>,
)
    requires
        TunnelManager::created(m0, first, m1, r1),
        r1 is Ok,
        TunnelManager::state_updated(m1, state, m2),
        TunnelManager::created(m2, second, m3, r2),
    ensures
        r2 matches Err(e) && e is Tunnel,
        m3 == m2,
{
}

/// After a `close_tunnel` a `create_tunnel` succeeds, and its identifier is
/// greater than that of the tunnel before, as long as an identifier is left.
pub proof fn lemma_create_after_close(
    m0: TunnelManager,
    first: VpnServer,
    m1: TunnelManager,
    r1: VpnResult<u64>,
    m2: TunnelManager,
    second: VpnServer,
    m3: TunnelManager,
    r2: VpnResult<u64>,
)
    requires
        TunnelManager::created(m0, first, m1, r1),
        r1 is Ok,
        TunnelManager::closed(m1, m2),
        TunnelManager::created(m2, second, m3, r2),
        !m2.spec_exhausted(),
    ensures
        r1 matches Ok(id1) && r2 matches Ok(id2) && id1 < id2,
{
}

/// No operation lowers the next identifier.
pub proof fn lemma_step_keeps_identifiers(pre: TunnelManager, post: TunnelManager)
    requires
        step(pre, post),
    ensures
        pre.spec_next_id() <= post.spec_next_id(),
{
}

/// Along a run the next identifier never goes down.
pub proof fn lemma_run_keeps_identifiers(states: Seq<TunnelManager>, i: int, j: int)
    requires
        is_run(states),
        0 <= i <= j < states.len(),
    ensures
        states[i].spec_next_id() <= states[j].spec_next_id(),
    decreases j - i,
{
    if i < j {
        lemma_run_keeps_identifiers(states, i, j - 1);
        assert(step(states[j - 1], states[j - 1 + 1]));
        lemma_step_keeps_identifiers(states[j - 1], states[j]);
    }
}

/// An identifier is handed out once, and each is greater than every one
/// before it: of two successful `create_tunnel` in a run, whatever happens
/// between them, the later returns the greater identifier.
pub proof fn lemma_identifiers_increase(
    states: Seq<TunnelManager>,
    i: int,
    j: int,
    earlier: VpnServer,
    later: VpnServer,
    id_i: u64,
    id_j: u64,
)
    requires
        is_run(states),
        0 <= i < j < states.len() - 1,
        TunnelManager::created(states[i], earlier, states[i + 1], Ok(id_i)),
        TunnelManager::created(states[j], later, states[j + 1], Ok(id_j)),
    ensures
        id_i < id_j,
{
    lemma_run_keeps_identifiers(states, i + 1, j);
}

/// Along a run the identifier of the active tunnel lies below the next one
/// to be handed out, if that held at the start: no later tunnel gets it again.
pub proof fn lemma_active_identifier_is_used(states: Seq<TunnelManager>, j: int)
    requires
        is_run(states),
        0 <= j < states.len(),
        states[0].spec_active() matches Some(t) ==> t.id < states[0].spec_next_id(),
    ensures
        states[j].spec_active() matches Some(t) ==> t.id < states[j].spec_next_id(),
    decreases j,
{
    if j > 0 {
        lemma_active_identifier_is_used(states, j - 1);
        assert(step(states[j - 1], states[j - 1 + 1]));
    }
}

} // verus!
