//! The handshake that turns a fresh control connection into a tunnel: the
//! relay server is challenged with a nonce and has to return it under its
//! signature, and then a fresh session key is handed to it.
//!
//! The handshake neither connects, nor draws random bytes, nor signs or
//! seals: its driver does, and tells it what came of it.

use vstd::prelude::*;
use crate::error::{ChannelError, TunnelError};
use crate::keys::{
    bytes_equal, copy_bytes, Keypair, KeypairView, SessionKeyState, SessionKeyStateView,
    SESSION_KEY_LEN,
};

verus! {

/// The number of bytes in a challenge.
pub const NONCE_LEN: usize = 128;

/// Where a handshake stands.
#[derive(Clone, Copy, Debug, PartialEq, Eq, Structural)]
pub enum HandshakeState {
    /// The control connection is being opened.
    Connecting,
    /// The nonce is out; the signed response is awaited.
    Challenging,
    /// The server proved its identity; the session key is on its way.
    Rotating,
    /// The session key was delivered: the tunnel stands.
    Established,
    /// The attempt was given up.
    Failed,
}

/// What its driver tells a handshake.
#[derive(Debug, PartialEq, Eq)]
pub enum HandshakeEvent {
    /// The control connection is open.
    Connected,
    /// The control connection could not be opened in time.
    ConnectTimedOut,
    /// The control connection could not be opened.
    ConnectFailed,
    /// The response to the challenge was checked against the pinned key:
    /// the message under the signature, or `None` where the signature does
    /// not verify.
    Verified(Option<Vec<u8>>),
    /// The session key was sent.
    KeySent,
    /// The control channel failed.
    ChannelFailed(ChannelError),
}

/// A [`HandshakeEvent`] as a mathematical value.
pub enum HandshakeEventView {
    Connected,
    ConnectTimedOut,
    ConnectFailed,
    Verified(Option<Seq<u8>>),
    KeySent,
    ChannelFailed(ChannelError),
}

impl View for HandshakeEvent {
    type V = HandshakeEventView;

    open spec fn view(&self) -> HandshakeEventView {
        match *self {
            HandshakeEvent::Connected => HandshakeEventView::Connected,
            HandshakeEvent::ConnectTimedOut => HandshakeEventView::ConnectTimedOut,
            HandshakeEvent::ConnectFailed => HandshakeEventView::ConnectFailed,
            HandshakeEvent::Verified(recovered) => HandshakeEventView::Verified(
                match recovered {
                    Some(message) => Some(message@),
                    None => None,
                },
            ),
            HandshakeEvent::KeySent => HandshakeEventView::KeySent,
            HandshakeEvent::ChannelFailed(e) => HandshakeEventView::ChannelFailed(e),
        }
    }
}

/// What a handshake tells its driver to do next.
#[derive(Debug, PartialEq, Eq)]
pub enum HandshakeAction {
    /// Open the control connection, within the connect timeout.
    Connect,
    /// Send these bytes as the challenge, take the response for a signed
    /// message, check it against the pinned verification key and report
    /// what it holds.
    SendChallenge(Vec<u8>),
    /// Send this key to the server, sealed for it, and report that it went.
    SendKey(Vec<u8>),
    /// Nothing more: the tunnel stands.
    Done,
    /// Give the control connection up.
    Abort(TunnelError),
}

/// A [`HandshakeAction`] as a mathematical value.
pub enum HandshakeActionView {
    Connect,
    SendChallenge(Seq<u8>),
    SendKey(Seq<u8>),
    Done,
    Abort(TunnelError),
}

impl View for HandshakeAction {
    type V = HandshakeActionView;

    open spec fn view(&self) -> HandshakeActionView {
        match *self {
            HandshakeAction::Connect => HandshakeActionView::Connect,
            HandshakeAction::SendChallenge(nonce) => HandshakeActionView::SendChallenge(nonce@),
            HandshakeAction::SendKey(key) => HandshakeActionView::SendKey(key@),
            HandshakeAction::Done => HandshakeActionView::Done,
            HandshakeAction::Abort(e) => HandshakeActionView::Abort(e),
        }
    }
}

/// A handshake as a mathematical value.
pub struct HandshakeView {
    pub state: HandshakeState,
    pub peer_verify_key: Seq<u8>,
    pub ephemeral_keypair: KeypairView,
    /// The challenge of this handshake.
    pub nonce: Seq<u8>,
    /// The session key this handshake is to deliver.
    pub session_key: Seq<u8>,
    /// Why the handshake failed, where it did.
    pub failure: Option<TunnelError>,
}

impl HandshakeView {
    /// A handshake that has not begun, with the key material it is to use.
    pub open spec fn initial(
        peer_verify_key: Seq<u8>,
        ephemeral_keypair: KeypairView,
        nonce: Seq<u8>,
        session_key: Seq<u8>,
    ) -> HandshakeView {
        HandshakeView {
            state: HandshakeState::Connecting,
            peer_verify_key,
            ephemeral_keypair,
            nonce,
            session_key,
            failure: None,
        }
    }

    /// The handshake given up because of `error`.
    pub open spec fn fail(self, error: TunnelError) -> HandshakeView {
        HandshakeView { state: HandshakeState::Failed, failure: Some(error), ..self }
    }

    /// Whether the server passed the challenge: the signature verified, and
    /// the message under it is the nonce, byte for byte.
    pub open spec fn accepts(self, recovered: Option<Seq<u8>>) -> bool {
        recovered == Some(self.nonce)
    }

    /// The handshake after `event`. The steps come in one order only:
    /// the challenge is not sent before the connection stands, and the key
    /// not before the challenge was passed. A failed handshake stays as it
    /// failed; any event out of order fails the handshake.
    pub open spec fn on_event(self, event: HandshakeEventView) -> HandshakeView {
        if self.state == HandshakeState::Failed {
            self
        } else {
            match (self.state, event) {
                (_, HandshakeEventView::ChannelFailed(e)) => self.fail(TunnelError::Channel(e)),
                (HandshakeState::Connecting, HandshakeEventView::Connected) => HandshakeView {
                    state: HandshakeState::Challenging,
                    ..self
                },
                (HandshakeState::Connecting, HandshakeEventView::ConnectTimedOut) => self.fail(
                    TunnelError::ConnectTimeout,
                ),
                (HandshakeState::Connecting, HandshakeEventView::ConnectFailed) => self.fail(
                    TunnelError::ConnectFailed,
                ),
                (HandshakeState::Challenging, HandshakeEventView::Verified(recovered)) => {
                    if self.accepts(recovered) {
                        HandshakeView { state: HandshakeState::Rotating, ..self }
                    } else {
                        self.fail(TunnelError::HandshakeFailed)
                    }
                },
                (HandshakeState::Rotating, HandshakeEventView::KeySent) => HandshakeView {
                    state: HandshakeState::Established,
                    ..self
                },
                _ => self.fail(TunnelError::HandshakeFailed),
            }
        }
    }

    /// What the state asks of the driver.
    pub open spec fn next_action(self) -> HandshakeActionView {
        match self.state {
            HandshakeState::Connecting => HandshakeActionView::Connect,
            HandshakeState::Challenging => HandshakeActionView::SendChallenge(self.nonce),
            HandshakeState::Rotating => HandshakeActionView::SendKey(self.session_key),
            HandshakeState::Established => HandshakeActionView::Done,
            HandshakeState::Failed => HandshakeActionView::Abort(
                match self.failure {
                    Some(e) => e,
                    None => TunnelError::HandshakeFailed,
                },
            ),
        }
    }
}

/// The handshake of one control connection.
pub struct HandshakeProtocol {
    state: HandshakeState,
    peer_verify_key: Vec<u8>,
    ephemeral_keypair: Keypair,
    nonce: Vec<u8>,
    session_key: Vec<u8>,
    failure: Option<TunnelError>,
}

impl View for HandshakeProtocol {
    type V = HandshakeView;

    closed spec fn view(&self) -> HandshakeView {
        HandshakeView {
            state: self.state,
            peer_verify_key: self.peer_verify_key@,
            ephemeral_keypair: self.ephemeral_keypair@,
            nonce: self.nonce@,
            session_key: self.session_key@,
            failure: self.failure,
        }
    }
}

impl HandshakeProtocol {
    /// A handshake for a control connection that is about to be opened.
    ///
    /// `ephemeral_keypair`, `nonce` and `session_key` have to be drawn anew
    /// for each connection. `None` where the nonce is not of `NONCE_LEN`
    /// bytes or the session key not of `SESSION_KEY_LEN` bytes.
    pub fn new(
        peer_verify_key: Vec<u8>,
        ephemeral_keypair: Keypair,
        nonce: Vec<u8>,
        session_key: Vec<u8>,
    ) -> (handshake: Option<HandshakeProtocol>)
        ensures
            handshake is Some <==> nonce@.len() == NONCE_LEN && session_key@.len()
                == SESSION_KEY_LEN,
            handshake matches Some(h) ==> h@ == HandshakeView::initial(
                peer_verify_key@,
                ephemeral_keypair@,
                nonce@,
                session_key@,
            ),
    {
        if nonce.len() == NONCE_LEN && session_key.len() == SESSION_KEY_LEN {
            Some(
                HandshakeProtocol {
                    state: HandshakeState::Connecting,
                    peer_verify_key,
                    ephemeral_keypair,
                    nonce,
                    session_key,
                    failure: None,
                },
            )
        } else {
            None
        }
    }

    /// Where the handshake stands.
    pub fn state(&self) -> (state: HandshakeState)
        ensures
            state == self@.state,
    {
        self.state
    }

    /// Why the handshake failed, where it did.
    pub fn failure(&self) -> (failure: Option<TunnelError>)
        ensures
            failure == self@.failure,
    {
        self.failure
    }

    /// The relay server's pinned verification key.
    pub fn peer_verify_key(&self) -> (key: &Vec<u8>)
        ensures
            key@ == self@.peer_verify_key,
    {
        &self.peer_verify_key
    }

    /// The key pair drawn for this connection.
    pub fn ephemeral_keypair(&self) -> (pair: &Keypair)
        ensures
            pair@ == self@.ephemeral_keypair,
    {
        &self.ephemeral_keypair
    }

    /// Gives the handshake up because of `error`.
    fn fail(&mut self, error: TunnelError)
        ensures
            final(self)@ == old(self)@.fail(error),
    {
        self.state = HandshakeState::Failed;
        self.failure = Some(error);
    }

    /// Judges the response to the challenge. The server passes if the
    /// signature verified and the message under it is the nonce, byte for
    /// byte; anything else fails the handshake for good.
    pub fn stream_handshake(&mut self, recovered: Option<Vec<u8>>)
        ensures
            final(self)@ == old(self)@.on_event(
                HandshakeEventView::Verified(
                    match recovered {
                        Some(message) => Some(message@),
                        None => None,
                    },
                ),
            ),
    {
        if self.state == HandshakeState::Challenging {
            let passed = match &recovered {
                Some(message) => bytes_equal(message.as_slice(), self.nonce.as_slice()),
                None => false,
            };
            if passed {
                self.state = HandshakeState::Rotating;
            } else {
                self.fail(TunnelError::HandshakeFailed);
            }
        } else if self.state != HandshakeState::Failed {
            self.fail(TunnelError::HandshakeFailed);
        }
    }

    /// Takes note that the session key was sent: the tunnel stands.
    pub fn rotate_key(&mut self)
        ensures
            final(self)@ == old(self)@.on_event(HandshakeEventView::KeySent),
    {
        if self.state == HandshakeState::Rotating {
            self.state = HandshakeState::Established;
        } else if self.state != HandshakeState::Failed {
            self.fail(TunnelError::HandshakeFailed);
        }
    }

    /// What the state asks of the driver.
    pub fn next_action(&self) -> (action: HandshakeAction)
        ensures
            action@ == self@.next_action(),
    {
        match self.state {
            HandshakeState::Connecting => HandshakeAction::Connect,
            HandshakeState::Challenging => HandshakeAction::SendChallenge(
                copy_bytes(self.nonce.as_slice()),
            ),
            HandshakeState::Rotating => HandshakeAction::SendKey(
                copy_bytes(self.session_key.as_slice()),
            ),
            HandshakeState::Established => HandshakeAction::Done,
            HandshakeState::Failed => HandshakeAction::Abort(
                match self.failure {
                    Some(e) => e,
                    None => TunnelError::HandshakeFailed,
                },
            ),
        }
    }

    /// Moves the handshake on by one event and says what its driver has to
    /// do next.
    pub fn establish_connection(&mut self, event: HandshakeEvent) -> (action: HandshakeAction)
        ensures
            final(self)@ == old(self)@.on_event(event@),
            action@ == final(self)@.next_action(),
    {
        match event {
            HandshakeEvent::Verified(recovered) => {
                self.stream_handshake(recovered);
            },
            HandshakeEvent::KeySent => {
                self.rotate_key();
            },
            HandshakeEvent::ChannelFailed(e) => {
                if self.state != HandshakeState::Failed {
                    self.fail(TunnelError::Channel(e));
                }
            },
            HandshakeEvent::Connected => {
                if self.state == HandshakeState::Connecting {
                    self.state = HandshakeState::Challenging;
                } else if self.state != HandshakeState::Failed {
                    self.fail(TunnelError::HandshakeFailed);
                }
            },
            HandshakeEvent::ConnectTimedOut => {
                if self.state == HandshakeState::Connecting {
                    self.fail(TunnelError::ConnectTimeout);
                } else if self.state != HandshakeState::Failed {
                    self.fail(TunnelError::HandshakeFailed);
                }
            },
            HandshakeEvent::ConnectFailed => {
                if self.state == HandshakeState::Connecting {
                    self.fail(TunnelError::ConnectFailed);
                } else if self.state != HandshakeState::Failed {
                    self.fail(TunnelError::HandshakeFailed);
                }
            },
        }
        self.next_action()
    }

    /// Ends the handshake and hands over the keys of the tunnel it set up:
    /// the session key is the one this handshake delivered. A handshake
    /// that is not established yields its failure instead, and no keys.
    pub fn into_keys(self) -> (keys: Result<SessionKeyState, TunnelError>)
        ensures
            keys is Ok <==> self@.state == HandshakeState::Established,
            keys matches Ok(k) ==> k@ == (SessionKeyStateView {
                ephemeral_keypair: self@.ephemeral_keypair,
                peer_verify_key: self@.peer_verify_key,
                symmetric_session_key: self@.session_key,
            }),
            keys matches Err(e) ==> e == match self@.failure {
                Some(failure) => failure,
                None => TunnelError::HandshakeFailed,
            },
    {
        if self.state == HandshakeState::Established {
            Ok(
                SessionKeyState {
                    ephemeral_keypair: self.ephemeral_keypair,
                    peer_verify_key: self.peer_verify_key,
                    symmetric_session_key: self.session_key,
                },
            )
        } else {
            Err(
                match self.failure {
                    Some(e) => e,
                    None => TunnelError::HandshakeFailed,
                },
            )
        }
    }
}

/// Of all the things a check of the response can come out with, one alone
/// lets the handshake go on: the nonce itself, whole and unchanged. A
/// signature that does not verify, a shorter or longer message, or a nonce
/// of which a single bit differs fails the handshake with
/// `HandshakeFailed`, and the driver is told to abort.
pub proof fn lemma_only_the_nonce_passes(before: HandshakeView, recovered: Option<Seq<u8>>)
    requires
        before.state == HandshakeState::Challenging,
    ensures
        ({
            let after = before.on_event(HandshakeEventView::Verified(recovered));
            if recovered == Some(before.nonce) {
                &&& after.state == HandshakeState::Rotating
                &&& after.failure == before.failure
                &&& after.next_action() == HandshakeActionView::SendKey(before.session_key)
            } else {
                &&& after.state == HandshakeState::Failed
                &&& after.failure == Some(TunnelError::HandshakeFailed)
                &&& after.next_action() == HandshakeActionView::Abort(TunnelError::HandshakeFailed)
            }
        }),
        forall|i: int, byte: u8|
            0 <= i < before.nonce.len() && byte != before.nonce[i] ==> recovered != Some(
                #[trigger] before.nonce.update(i, byte),
            ) || before.on_event(HandshakeEventView::Verified(recovered)).state
                == HandshakeState::Failed,
{
    assert forall|i: int, byte: u8|
        0 <= i < before.nonce.len() && byte != before.nonce[i] implies recovered != Some(
        #[trigger] before.nonce.update(i, byte),
    ) || before.on_event(HandshakeEventView::Verified(recovered)).state
        == HandshakeState::Failed by {
        assert(before.nonce.update(i, byte)[i] != before.nonce[i]);
    }
}

/// A handshake that failed stays failed, whatever its driver reports: it
/// never comes to stand, and all it ever asks for is to abort.
pub proof fn lemma_failure_is_final(before: HandshakeView, event: HandshakeEventView)
    requires
        before.state == HandshakeState::Failed,
    ensures
        before.on_event(event) == before,
        before.next_action() is Abort,
{
}

/// A handshake comes to stand by one path alone: connected, then the
/// challenge passed, then the key sent. So where it stands after an
/// event, it was rotating before, and the event was that the key went.
pub proof fn lemma_established_only_after_rotation(
    before: HandshakeView,
    event: HandshakeEventView,
)
    requires
        before.state != HandshakeState::Established,
        before.on_event(event).state == HandshakeState::Established,
    ensures
        before.state == HandshakeState::Rotating,
        event == HandshakeEventView::KeySent,
        before.on_event(event).session_key == before.session_key,
{
}

/// A handshake keeps the key material it began with: no event changes its
/// nonce, its session key, its key pair or the pinned key. So the session
/// key of a tunnel is the one drawn for its own handshake, and two
/// handshakes that were given different keys set up tunnels with different
/// keys.
pub proof fn lemma_handshake_keeps_its_keys(before: HandshakeView, event: HandshakeEventView)
    ensures
        before.on_event(event).nonce == before.nonce,
        before.on_event(event).session_key == before.session_key,
        before.on_event(event).ephemeral_keypair == before.ephemeral_keypair,
        before.on_event(event).peer_verify_key == before.peer_verify_key,
{
}

} // verus!
