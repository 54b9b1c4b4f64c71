//! Key material of one tunnel, as the bytes the cryptographic library hands
//! over. Nothing here computes on keys: they are carried, compared and
//! replaced.

use vstd::prelude::*;

verus! {

/// The number of bytes in a symmetric session key.
pub const SESSION_KEY_LEN: usize = 32;

/// A public key and the secret key that belongs to it.
#[derive(Debug, PartialEq, Eq)]
pub struct Keypair {
    pub public: Vec<u8>,
    pub secret: Vec<u8>,
}

/// A [`Keypair`] as a mathematical value.
pub struct KeypairView {
    pub public: Seq<u8>,
    pub secret: Seq<u8>,
}

impl View for Keypair {
    type V = KeypairView;

    open spec fn view(&self) -> KeypairView {
        KeypairView { public: self.public@, secret: self.secret@ }
    }
}

/// The keys of one tunnel. They are made during its handshake, belong to
/// that tunnel alone and go when its control connection closes.
#[derive(Debug, PartialEq, Eq)]
pub struct SessionKeyState {
    /// The key pair drawn for this control connection and for no other.
    pub ephemeral_keypair: Keypair,
    /// The relay server's pinned verification key.
    pub peer_verify_key: Vec<u8>,
    /// The key under which traffic is sealed.
    pub symmetric_session_key: Vec<u8>,
}

/// A [`SessionKeyState`] as a mathematical value.
pub struct SessionKeyStateView {
    pub ephemeral_keypair: KeypairView,
    pub peer_verify_key: Seq<u8>,
    pub symmetric_session_key: Seq<u8>,
}

impl View for SessionKeyState {
    type V = SessionKeyStateView;

    open spec fn view(&self) -> SessionKeyStateView {
        SessionKeyStateView {
            ephemeral_keypair: self.ephemeral_keypair@,
            peer_verify_key: self.peer_verify_key@,
            symmetric_session_key: self.symmetric_session_key@,
        }
    }
}

/// Whether two byte strings are the same, byte for byte.
pub fn bytes_equal(a: &[u8], b: &[u8]) -> (same: bool)
    ensures
        same == (a@ == b@),
{
    if a.len() != b.len() {
        return false;
    }
    let mut i: usize = 0;
    while i < a.len()
        invariant
            i <= a@.len(),
            a@.len() == b@.len(),
            forall|j: int| 0 <= j < i ==> a@[j] == b@[j],
        decreases a@.len() - i,
    {
        if a[i] != b[i] {
            return false;
        }
        i = i + 1;
    }
    assert(a@ =~= b@);
    true
}

/// A copy of `bytes`.
pub fn copy_bytes(bytes: &[u8]) -> (copy: Vec<u8>)
    ensures
        copy@ == bytes@,
{
    let mut copy: Vec<u8> = Vec::new();
    let mut i: usize = 0;
    while i < bytes.len()
        invariant
            i <= bytes@.len(),
            copy@ == bytes@.take(i as int),
        decreases bytes@.len() - i,
    {
        copy.push(bytes[i]);
        i = i + 1;
        assert(bytes@.take(i as int) =~= bytes@.take(i - 1).push(bytes@[i - 1]));
    }
    assert(bytes@.take(i as int) =~= bytes@);
    copy
}

} // verus!
