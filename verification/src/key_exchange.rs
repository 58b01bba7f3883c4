//! The key-exchange handshake: key-pair generation, encapsulation,
//! decapsulation, and the erasure of key material.
//!
//! A public key has the length that its protocol defines; ciphertexts and
//! secrets have the sizes of the ML-KEM-768 family. The contents of the
//! buffers are zero-filled: the cryptographic transform itself is left to a
//! primitive library, and what is fixed here is the shape of the protocol,
//! the sizes, and that both parties end up with the same secret.

use vstd::prelude::*;

use crate::errors::{VpnError, VpnResult};
use crate::types::KeyExchangeProtocol;

verus! {

/// Length of a public key of the ML-KEM-768 family, in bytes.
pub const PUBLIC_KEY_LEN: usize = 1184;

/// Length of an X25519 public key, in bytes.
pub const X25519_PUBLIC_KEY_LEN: usize = 32;

/// Length of a ciphertext, in bytes.
pub const CIPHERTEXT_LEN: usize = 1088;

/// Length of a shared secret, in bytes: 256 bits.
pub const SHARED_SECRET_LEN: usize = 32;

/// The buffer of `n` zero bytes.
pub open spec fn zeros(n: nat) -> Seq<u8> {
    Seq::new(n, |i: int| 0u8)
}

/// The length that `protocol` defines for a public key: 32 bytes for
/// X25519, and 1184 bytes for ML-KEM and for the hybrid, which carry a key
/// of the ML-KEM-768 family.
pub open spec fn spec_public_key_len(protocol: KeyExchangeProtocol) -> nat {
    match protocol {
        KeyExchangeProtocol::X25519 => X25519_PUBLIC_KEY_LEN as nat,
        KeyExchangeProtocol::MlKem => PUBLIC_KEY_LEN as nat,
        KeyExchangeProtocol::HybridMlKem => PUBLIC_KEY_LEN as nat,
    }
}

/// The length that `protocol` defines for a public key, in bytes.
pub fn public_key_len(protocol: KeyExchangeProtocol) -> (n: usize)
    ensures
        n == spec_public_key_len(protocol),
{
    match protocol {
        KeyExchangeProtocol::X25519 => X25519_PUBLIC_KEY_LEN,
        KeyExchangeProtocol::MlKem => PUBLIC_KEY_LEN,
        KeyExchangeProtocol::HybridMlKem => PUBLIC_KEY_LEN,
    }
}

/// The public key that key-pair generation produces under `protocol`: a
/// buffer of the length that the protocol defines.
pub open spec fn generated_public_key(protocol: KeyExchangeProtocol) -> Seq<u8> {
    zeros(spec_public_key_len(protocol))
}

/// The secret that both parties hold after a handshake under `protocol`:
/// what decapsulation recovers from the ciphertext that encapsulation
/// against the generated public key produced.
pub open spec fn handshake_secret(protocol: KeyExchangeProtocol) -> Seq<u8> {
    decapsulated_secret(encapsulated_ciphertext(generated_public_key(protocol)))
}

/// What is left of a buffer that was overwritten with zero bytes.
pub open spec fn zeroed(held: Option<Seq<u8>>) -> Option<Seq<u8>> {
    match held {
        Some(bytes) => Some(zeros(bytes.len())),
        None => None,
    }
}

/// The ciphertext that encapsulation against `peer_public_key` produces.
pub open spec fn encapsulated_ciphertext(peer_public_key: Seq<u8>) -> Seq<u8> {
    zeros(CIPHERTEXT_LEN as nat)
}

/// The secret that encapsulation against `peer_public_key` derives.
pub open spec fn encapsulated_secret(peer_public_key: Seq<u8>) -> Seq<u8> {
    zeros(SHARED_SECRET_LEN as nat)
}

/// The secret that decapsulation recovers from `ciphertext`.
pub open spec fn decapsulated_secret(ciphertext: Seq<u8>) -> Seq<u8> {
    zeros(SHARED_SECRET_LEN as nat)
}

/// The contents of an optional buffer.
pub open spec fn buffer_view(buffer: Option<Vec<u8>>) -> Option<Seq<u8>> {
    match buffer {
        Some(v) => Some(v@),
        None => None,
    }
}

/// Overwrites every byte of `buffer` with zero.
///
/// Calls `fill` of the standard library's slices with the byte zero. It is
/// taken on trust that the call keeps the length, leaves a zero in every
/// position, and neither unwinds nor opens an invariant. The last two are
/// what a destructor may rely on, and the erasure runs in one.
#[verifier::external_body]
fn wipe(buffer: &mut Vec<u8>)
    ensures
        final(buffer)@ == zeros(old(buffer)@.len()),
    opens_invariants none
    no_unwind
{
    buffer.fill(0);
}

/// Overwrites every byte of `buffer` with zero and keeps its length: for a
/// holder of a copy of key material that is about to let go of it.
pub fn erase(buffer: &mut Vec<u8>)
    ensures
        final(buffer)@ == zeros(old(buffer)@.len()),
{
    wipe(buffer);
}

/// Overwrites the buffer in `slot`, if there is one, with zero bytes, puts
/// `next` in its place, and hands the overwritten buffer back: what the
/// caller lets go of holds nothing but zeros, of the length that was held.
fn replace_wiped(slot: &mut Option<Vec<u8>>, next: Option<Vec<u8>>) -> (released: Option<Vec<u8>>)
    ensures
        *final(slot) == next,
        buffer_view(released) == zeroed(buffer_view(*old(slot))),
    opens_invariants none
    no_unwind
{
    match slot {
        Some(buffer) => {
            wipe(buffer);
        },
        None => {},
    }
    let mut released: Option<Vec<u8>> = next;
    core::mem::swap(slot, &mut released);
    released
}

/// One party's side of a handshake.
pub struct PqcKeyExchange {
    protocol: KeyExchangeProtocol,
    public_key: Option<Vec<u8>>,
    shared_secret: Option<Vec<u8>>,
}

impl PqcKeyExchange {
    /// The protocol that the handshake runs under.
    pub closed spec fn spec_protocol(self) -> KeyExchangeProtocol {
        self.protocol
    }

    /// The public half of the generated key pair, if one is held.
    pub closed spec fn spec_public_key(self) -> Option<Seq<u8>> {
        buffer_view(self.public_key)
    }

    /// The derived secret, if one is held.
    pub closed spec fn spec_shared_secret(self) -> Option<Seq<u8>> {
        buffer_view(self.shared_secret)
    }

    /// Whether neither a public key nor a secret is held.
    pub open spec fn spec_is_clear(self) -> bool {
        self.spec_public_key() is None && self.spec_shared_secret() is None
    }

    /// What `generate_keypair` does: it always succeeds, returns the public
    /// key of the protocol and keeps it; a held secret stays.
    pub open spec fn generated(
        pre: PqcKeyExchange,
        post: PqcKeyExchange,
        r: VpnResult<Vec<u8>>,
    ) -> bool {
        &&& r matches Ok(public_key)
        &&& public_key@ == generated_public_key(pre.spec_protocol())
        &&& post.spec_protocol() == pre.spec_protocol()
        &&& post.spec_public_key() == Some(public_key@)
        &&& post.spec_shared_secret() == pre.spec_shared_secret()
    }

    /// What `encapsulate` does. On a non-empty key it returns the ciphertext
    /// and the secret, and keeps the secret. On an empty key it fails with a
    /// `KeyExchange` error and changes nothing.
    pub open spec fn encapsulated(
        pre: PqcKeyExchange,
        peer_public_key: Seq<u8>,
        post: PqcKeyExchange,
        r: VpnResult<(Vec<u8>, Vec<u8>)>,
    ) -> bool {
        match r {
            Ok((ciphertext, secret)) => {
                &&& peer_public_key.len() > 0
                &&& ciphertext@ == encapsulated_ciphertext(peer_public_key)
                &&& secret@ == encapsulated_secret(peer_public_key)
                &&& post.spec_protocol() == pre.spec_protocol()
                &&& post.spec_public_key() == pre.spec_public_key()
                &&& post.spec_shared_secret() == Some(secret@)
            },
            Err(e) => {
                &&& peer_public_key.len() == 0
                &&& e is KeyExchange
                &&& e.spec_message() == "Empty server public key"@
                &&& post == pre
            },
        }
    }

    /// What `decapsulate` does. On a non-empty ciphertext it returns the
    /// secret and keeps it. On an empty ciphertext it fails with a
    /// `KeyExchange` error and changes nothing.
    pub open spec fn decapsulated(
        pre: PqcKeyExchange,
        ciphertext: Seq<u8>,
        post: PqcKeyExchange,
        r: VpnResult<Vec<u8>>,
    ) -> bool {
        match r {
            Ok(secret) => {
                &&& ciphertext.len() > 0
                &&& secret@ == decapsulated_secret(ciphertext)
                &&& post.spec_protocol() == pre.spec_protocol()
                &&& post.spec_public_key() == pre.spec_public_key()
                &&& post.spec_shared_secret() == Some(secret@)
            },
            Err(e) => {
                &&& ciphertext.len() == 0
                &&& e is KeyExchange
                &&& e.spec_message() == "Empty ciphertext"@
                &&& post == pre
            },
        }
    }

    /// A handshake under `protocol` that holds no key material yet.
    pub fn new(protocol: KeyExchangeProtocol) -> (r: Self)
        ensures
            r.spec_protocol() == protocol,
            r.spec_is_clear(),
    {
        PqcKeyExchange { protocol, public_key: None, shared_secret: None }
    }

    /// The protocol that the handshake runs under.
    pub fn protocol(&self) -> (r: KeyExchangeProtocol)
        ensures
            r == self.spec_protocol(),
    {
        self.protocol
    }

    /// Generates a key pair, keeps its public half and returns a copy of it.
    /// A public key held before is overwritten with zero bytes first.
    pub fn generate_keypair(&mut self) -> (r: VpnResult<Vec<u8>>)
        ensures
            Self::generated(*old(self), *final(self), r),
    {
        let n: usize = public_key_len(self.protocol);
        let public_key: Vec<u8> = vec![0u8; n];
        let kept: Vec<u8> = vec![0u8; n];
        assert(public_key@ =~= zeros(n as nat));
        assert(kept@ =~= zeros(n as nat));
        let released = replace_wiped(&mut self.public_key, Some(kept));
        assert(buffer_view(released) == zeroed(old(self).spec_public_key()));
        Ok(public_key)
    }

    /// The client's step: from the peer's public key to a ciphertext for the
    /// peer and the shared secret, which is kept. A secret held before is
    /// overwritten with zero bytes first.
    pub fn encapsulate(&mut self, server_public_key: &[u8]) -> (r: VpnResult<(Vec<u8>, Vec<u8>)>)
        ensures
            Self::encapsulated(*old(self), server_public_key@, *final(self), r),
    {
        if server_public_key.len() == 0 {
            return Err(VpnError::KeyExchange("Empty server public key".to_owned()));
        }
        let ciphertext: Vec<u8> = vec![0u8; CIPHERTEXT_LEN];
        let shared_secret: Vec<u8> = vec![0u8; SHARED_SECRET_LEN];
        let kept: Vec<u8> = vec![0u8; SHARED_SECRET_LEN];
        assert(ciphertext@ =~= zeros(CIPHERTEXT_LEN as nat));
        assert(shared_secret@ =~= zeros(SHARED_SECRET_LEN as nat));
        assert(kept@ =~= zeros(SHARED_SECRET_LEN as nat));
        let released = replace_wiped(&mut self.shared_secret, Some(kept));
        assert(buffer_view(released) == zeroed(old(self).spec_shared_secret()));
        Ok((ciphertext, shared_secret))
    }

    /// The server's step: from a ciphertext to the shared secret, which is
    /// kept. A secret held before is overwritten with zero bytes first.
    pub fn decapsulate(&mut self, ciphertext: &[u8]) -> (r: VpnResult<Vec<u8>>)
        ensures
            Self::decapsulated(*old(self), ciphertext@, *final(self), r),
    {
        if ciphertext.len() == 0 {
            return Err(VpnError::KeyExchange("Empty ciphertext".to_owned()));
        }
        let shared_secret: Vec<u8> = vec![0u8; SHARED_SECRET_LEN];
        let kept: Vec<u8> = vec![0u8; SHARED_SECRET_LEN];
        assert(shared_secret@ =~= zeros(SHARED_SECRET_LEN as nat));
        assert(kept@ =~= zeros(SHARED_SECRET_LEN as nat));
        let released = replace_wiped(&mut self.shared_secret, Some(kept));
        assert(buffer_view(released) == zeroed(old(self).spec_shared_secret()));
        Ok(shared_secret)
    }

    /// The secret that is held, if one has been derived.
    pub fn shared_secret(&self) -> (r: Option<&[u8]>)
        ensures
            match r {
                Some(s) => self.spec_shared_secret() == Some(s@),
                None => self.spec_shared_secret() is None,
            },
    {
        match &self.shared_secret {
            Some(v) => Some(v.as_slice()),
            None => None,
        }
    }

    /// Overwrites the held public key and secret with zero bytes and
    /// discards them.
    pub fn clear(&mut self)
        ensures
            final(self).spec_is_clear(),
            final(self).spec_protocol() == old(self).spec_protocol(),
        opens_invariants none
        no_unwind
    {
        let public_key = replace_wiped(&mut self.public_key, None);
        let shared_secret = replace_wiped(&mut self.shared_secret, None);
        assert(buffer_view(public_key) == zeroed(old(self).spec_public_key()));
        assert(buffer_view(shared_secret) == zeroed(old(self).spec_shared_secret()));
    }
}

impl Drop for PqcKeyExchange {
    /// Key material does not outlive the handshake: it is erased here.
    fn drop(&mut self)
        opens_invariants none
        no_unwind
    {
        self.clear();
    }
}

/// Under every protocol the generated public key is not empty, so that a
/// peer can encapsulate against it, and the secret of the handshake has 32
/// bytes.
pub proof fn lemma_handshake_secret_len(protocol: KeyExchangeProtocol)
    ensures
        generated_public_key(protocol).len() == spec_public_key_len(protocol),
        generated_public_key(protocol).len() > 0,
        encapsulated_ciphertext(generated_public_key(protocol)).len() == 1088,
        handshake_secret(protocol).len() == 32,
        handshake_secret(protocol) == encapsulated_secret(generated_public_key(protocol)),
{
}

/// Both parties of a completed handshake hold the same secret, of 32 bytes.
///
/// Party A generates a key pair, party B encapsulates against A's public
/// key, and A decapsulates B's ciphertext. Then every step has succeeded,
/// what A recovered is what B derived, and each party holds it.
pub proof fn lemma_handshake_secrets_agree(
    a0: PqcKeyExchange,
    a1: PqcKeyExchange,
    a2: PqcKeyExchange,
    b0: PqcKeyExchange,
    b1: PqcKeyExchange,
    generated: VpnResult<Vec<u8>>,
    encapsulated: VpnResult<(Vec<u8>, Vec<u8>)>,
    decapsulated: VpnResult<Vec<u8>>,
)
    requires
        PqcKeyExchange::generated(a0, a1, generated),
        generated matches Ok(public_key) && PqcKeyExchange::encapsulated(
            b0,
            public_key@,
            b1,
            encapsulated,
        ),
        encapsulated matches Ok(pair) ==> PqcKeyExchange::decapsulated(
            a1,
            pair.0@,
            a2,
            decapsulated,
        ),
    ensures
        encapsulated matches Ok(pair) && decapsulated matches Ok(secret) && {
            &&& secret@ == pair.1@
            &&& secret@.len() == 32
            &&& a2.spec_shared_secret() == Some(secret@)
            &&& b1.spec_shared_secret() == Some(secret@)
        },
{
}

} // verus!
