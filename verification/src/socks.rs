//! One SOCKS5 session: from the client's greeting to the relaying of bytes.
//!
//! A session owns no socket. Its driver hands it what happened (bytes came
//! in, a name was resolved, a dial succeeded or failed) and is told what to
//! do next. Bytes for the client are queued in the session and fetched by the
//! driver.

use vstd::prelude::*;
use crate::address::{Address, AddressView, Endpoint, EndpointView, IpAddress};
use crate::consts::{
    is_address_type, AUTH_NONE, AUTH_NO_ACCEPTABLE, REPLY_SUCCESS, VERSION_NUMBER,
};
use crate::error::{DialError, ErrorKind, SocksError};
use crate::parsed::Parsed;
use crate::request::{
    accepts_no_auth, offers_no_auth, parse_methods, parse_request, parse_version, spec_parse_methods,
    spec_parse_request, spec_parse_version, Command,
};
use crate::wire::{be16_bytes, write_be16};

verus! {

/// Where a session stands.
#[derive(Clone, Copy, Debug, PartialEq, Eq, Structural)]
pub enum SessionState {
    /// Nothing was read yet: the version byte of the greeting comes first.
    AwaitingGreeting,
    /// The version was right: the list of methods comes next.
    NegotiatingAuth,
    /// The method was agreed on: the request comes next.
    AwaitingRequest,
    /// The request was accepted: its target is being resolved or dialed.
    Dialing,
    /// The client was told of success: bytes flow both ways.
    Relaying,
    /// The session is over.
    Closed,
}

/// What its driver tells a session.
#[derive(Debug, PartialEq, Eq)]
pub enum SessionEvent {
    /// The client sent these bytes.
    ClientData(Vec<u8>),
    /// The resolver answered with these addresses, in its order. An empty
    /// list stands for a lookup that failed.
    Resolved(Vec<IpAddress>),
    /// The target was reached; the connection is bound to this address, as
    /// seen locally or as the relay reported it.
    Connected { ip: IpAddress, port: u16 },
    /// The target was not reached.
    DialFailed(DialError),
    /// The client or the target reached end-of-stream, or either failed.
    Ended,
}

/// A [`SessionEvent`] as a mathematical value.
pub enum SessionEventView {
    ClientData(Seq<u8>),
    Resolved(Seq<IpAddress>),
    Connected { ip: IpAddress, port: u16 },
    DialFailed(DialError),
    Ended,
}

impl View for SessionEvent {
    type V = SessionEventView;

    open spec fn view(&self) -> SessionEventView {
        match *self {
            SessionEvent::ClientData(bytes) => SessionEventView::ClientData(bytes@),
            SessionEvent::Resolved(found) => SessionEventView::Resolved(found@),
            SessionEvent::Connected { ip, port } => SessionEventView::Connected { ip, port },
            SessionEvent::DialFailed(e) => SessionEventView::DialFailed(e),
            SessionEvent::Ended => SessionEventView::Ended,
        }
    }
}

/// What a session tells its driver to do next, once the queued bytes have
/// been written to the client.
#[derive(Debug, PartialEq, Eq)]
pub enum SessionAction {
    /// Wait for bytes from the client.
    Read,
    /// Look this name up.
    Resolve(String),
    /// Open a byte stream to this endpoint, directly or through the tunnel.
    Dial(Endpoint),
    /// Copy bytes between client and target, each direction on its own.
    Relay,
    /// Close the client's connection, and the target's if there is one.
    Close,
}

/// A [`SessionAction`] as a mathematical value.
pub enum SessionActionView {
    Read,
    Resolve(Seq<char>),
    Dial(EndpointView),
    Relay,
    Close,
}

impl View for SessionAction {
    type V = SessionActionView;

    open spec fn view(&self) -> SessionActionView {
        match *self {
            SessionAction::Read => SessionActionView::Read,
            SessionAction::Resolve(name) => SessionActionView::Resolve(name@),
            SessionAction::Dial(target) => SessionActionView::Dial(target@),
            SessionAction::Relay => SessionActionView::Relay,
            SessionAction::Close => SessionActionView::Close,
        }
    }
}

/// A reply on the wire: version, reply code, a reserved zero, the address
/// type, the bound address and the port in network byte order.
pub open spec fn reply_bytes(rep: u8, atype: u8, addr: Seq<u8>, port: u16) -> Seq<u8> {
    seq![VERSION_NUMBER, rep, 0x00u8, atype] + addr + be16_bytes(port)
}

/// A reply that reports a failure: it names no address type and carries an
/// address of four zero bytes and port zero.
pub open spec fn error_reply_bytes(rep: u8) -> Seq<u8> {
    reply_bytes(rep, 0x00, seq![0x00u8, 0x00u8, 0x00u8, 0x00u8], 0)
}

/// The answer to a greeting: the version and the method chosen.
pub open spec fn method_reply_bytes(method: u8) -> Seq<u8> {
    seq![VERSION_NUMBER, method]
}

/// A session as a mathematical value.
pub struct SessionView {
    pub state: SessionState,
    /// Bytes the client sent that no message has taken up yet.
    pub incoming: Seq<u8>,
    /// Bytes queued for the client.
    pub outgoing: Seq<u8>,
    /// The endpoint the client asked for, from `Dialing` on.
    pub target: Option<EndpointView>,
    /// Why the session closed, where it closed on a failure.
    pub failure: Option<SocksError>,
}

impl SessionView {
    /// A session that has seen nothing yet.
    pub open spec fn initial() -> SessionView {
        SessionView {
            state: SessionState::AwaitingGreeting,
            incoming: Seq::empty(),
            outgoing: Seq::empty(),
            target: None,
            failure: None,
        }
    }

    /// The session with `bytes` queued for the client.
    pub open spec fn send(self, bytes: Seq<u8>) -> SessionView {
        SessionView { outgoing: self.outgoing + bytes, ..self }
    }

    /// The session with the first `n` bytes received taken up.
    pub open spec fn consume(self, n: int) -> SessionView {
        SessionView { incoming: self.incoming.skip(n), ..self }
    }

    /// The session closed, with nothing said to the client.
    pub open spec fn close(self) -> SessionView {
        SessionView { state: SessionState::Closed, ..self }
    }

    /// The session after `error`: the client is sent the reply that belongs
    /// to the error, where one does, and the session is closed.
    pub open spec fn fail(self, error: SocksError) -> SessionView {
        let told = match error.spec_reply_code() {
            Some(code) => self.send(error_reply_bytes(code.wire_byte())),
            None => self,
        };
        SessionView { state: SessionState::Closed, failure: Some(error), ..told }
    }

    /// `AwaitingGreeting`: the version byte is checked as soon as it is there.
    /// A wrong version closes the session without a reply.
    pub open spec fn read_version(self) -> SessionView {
        match spec_parse_version(self.incoming) {
            Parsed::Incomplete => self,
            Parsed::Rejected(e) => self.fail(e),
            Parsed::Complete { consumed, .. } => SessionView {
                state: SessionState::NegotiatingAuth,
                ..self.consume(consumed as int)
            },
        }
    }

    /// `NegotiatingAuth`: once the methods are there, the client is told
    /// either that no authentication is used, or that none of its methods
    /// will do, and in that case the session is closed.
    pub open spec fn read_methods(self) -> SessionView {
        match spec_parse_methods(self.incoming) {
            Parsed::Incomplete => self,
            Parsed::Rejected(e) => self.fail(e),
            Parsed::Complete { value: methods, consumed } => if offers_no_auth(methods) {
                SessionView {
                    state: SessionState::AwaitingRequest,
                    ..self.consume(consumed as int).send(method_reply_bytes(AUTH_NONE))
                }
            } else {
                self.consume(consumed as int).send(method_reply_bytes(AUTH_NO_ACCEPTABLE)).fail(
                    SocksError::NoAcceptableMethod,
                )
            },
        }
    }

    /// `AwaitingRequest`: once the request is there, a CONNECT makes its
    /// endpoint the target, and any other command is refused. A request that
    /// is rejected is left in the buffer: nothing of it is taken up.
    pub open spec fn read_request(self) -> SessionView {
        match spec_parse_request(self.incoming) {
            Parsed::Incomplete => self,
            Parsed::Rejected(e) => self.fail(e),
            Parsed::Complete { value: request, consumed } => if request.command
                == Command::Connect {
                SessionView {
                    state: SessionState::Dialing,
                    target: Some(request.target),
                    ..self.consume(consumed as int)
                }
            } else {
                self.consume(consumed as int).fail(SocksError::UnsupportedCommand)
            },
        }
    }

    /// The greeting in both its parts, as far as the bytes received allow.
    pub open spec fn read_hello(self) -> SessionView {
        let versioned = if self.state == SessionState::AwaitingGreeting {
            self.read_version()
        } else {
            self
        };
        if versioned.state == SessionState::NegotiatingAuth {
            versioned.read_methods()
        } else {
            versioned
        }
    }

    /// Greeting and request, as far as the bytes received allow.
    pub open spec fn advance(self) -> SessionView {
        let greeted = self.read_hello();
        if greeted.state == SessionState::AwaitingRequest {
            greeted.read_request()
        } else {
            greeted
        }
    }

    /// Whether the session waits for bytes from the client.
    pub open spec fn is_reading(self) -> bool {
        self.state == SessionState::AwaitingGreeting || self.state == SessionState::NegotiatingAuth
            || self.state == SessionState::AwaitingRequest
    }

    /// The target, where the session is dialing and has one.
    pub open spec fn dial_target(self) -> Option<EndpointView> {
        if self.state == SessionState::Dialing {
            self.target
        } else {
            None
        }
    }

    /// The session after `event`. An event that the state does not call for
    /// closes the session.
    pub open spec fn on_event(self, event: SessionEventView) -> SessionView {
        match event {
            SessionEventView::ClientData(bytes) => if self.is_reading() {
                (SessionView { incoming: self.incoming + bytes, ..self }).advance()
            } else {
                self.close()
            },
            SessionEventView::Resolved(found) => match self.dial_target() {
                Some(target) => if target.address.is_resolved() {
                    self.close()
                } else {
                    match target.address.resolve(found) {
                        Ok(address) => SessionView {
                            target: Some(EndpointView { address, port: target.port }),
                            ..self
                        },
                        Err(e) => self.fail(e),
                    }
                },
                None => self.close(),
            },
            SessionEventView::Connected { ip, port } => match self.dial_target() {
                Some(target) => if target.address.is_resolved() {
                    SessionView {
                        state: SessionState::Relaying,
                        ..self.send(reply_bytes(REPLY_SUCCESS, ip.wire_type(), ip.wire_bytes(), port))
                    }
                } else {
                    self.close()
                },
                None => self.close(),
            },
            SessionEventView::DialFailed(e) => if self.dial_target() is Some {
                self.fail(SocksError::Dial(e))
            } else {
                self.close()
            },
            SessionEventView::Ended => self.close(),
        }
    }

    /// What the state asks of the driver.
    pub open spec fn next_action(self) -> SessionActionView {
        match self.state {
            SessionState::AwaitingGreeting => SessionActionView::Read,
            SessionState::NegotiatingAuth => SessionActionView::Read,
            SessionState::AwaitingRequest => SessionActionView::Read,
            SessionState::Dialing => match self.target {
                Some(target) => match target.address {
                    AddressView::Domain { name, resolved: None } => SessionActionView::Resolve(name),
                    _ => SessionActionView::Dial(target),
                },
                None => SessionActionView::Close,
            },
            SessionState::Relaying => SessionActionView::Relay,
            SessionState::Closed => SessionActionView::Close,
        }
    }
}

/// One accepted connection's session.
pub struct SocksConnection {
    state: SessionState,
    incoming: Vec<u8>,
    outgoing: Vec<u8>,
    target: Option<Endpoint>,
    failure: Option<SocksError>,
}

impl View for SocksConnection {
    type V = SessionView;

    closed spec fn view(&self) -> SessionView {
        SessionView {
            state: self.state,
            incoming: self.incoming@,
            outgoing: self.outgoing@,
            target: match self.target {
                Some(target) => Some(target@),
                None => None,
            },
            failure: self.failure,
        }
    }
}

impl SocksConnection {
    /// A session for a connection that was just accepted.
    pub fn new() -> (conn: SocksConnection)
        ensures
            conn@ == SessionView::initial(),
    {
        SocksConnection {
            state: SessionState::AwaitingGreeting,
            incoming: Vec::new(),
            outgoing: Vec::new(),
            target: None,
            failure: None,
        }
    }

    /// Where the session stands.
    pub fn state(&self) -> (state: SessionState)
        ensures
            state == self@.state,
    {
        self.state
    }

    /// Why the session closed, where it closed on a failure.
    pub fn failure(&self) -> (failure: Option<SocksError>)
        ensures
            failure == self@.failure,
    {
        self.failure
    }

    /// The endpoint the client asked for, once a request was accepted.
    pub fn target(&self) -> (target: Option<Endpoint>)
        ensures
            target is Some == self@.target is Some,
            target matches Some(t) ==> self@.target == Some(t@),
    {
        match &self.target {
            Some(target) => Some(target.clone()),
            None => None,
        }
    }

    /// Hands over the bytes queued for the client and empties the queue.
    pub fn take_outgoing(&mut self) -> (bytes: Vec<u8>)
        ensures
            bytes@ == old(self)@.outgoing,
            final(self)@ == (SessionView { outgoing: Seq::empty(), ..old(self)@ }),
    {
        let mut bytes: Vec<u8> = Vec::new();
        bytes.append(&mut self.outgoing);
        bytes
    }

    /// Hands over the bytes the client sent that no message took up: what
    /// it sent ahead of the reply belongs to the target.
    pub fn take_pending(&mut self) -> (bytes: Vec<u8>)
        ensures
            bytes@ == old(self)@.incoming,
            final(self)@ == (SessionView { incoming: Seq::empty(), ..old(self)@ }),
    {
        let mut bytes: Vec<u8> = Vec::new();
        bytes.append(&mut self.incoming);
        bytes
    }

    /// Queues a reply for the client.
    pub fn send_reply(&mut self, rep: u8, atype: u8, addr: &[u8], port: u16)
        ensures
            final(self)@ == old(self)@.send(reply_bytes(rep, atype, addr@, port)),
    {
        let ghost before = self.outgoing@;
        self.outgoing.push(VERSION_NUMBER);
        self.outgoing.push(rep);
        self.outgoing.push(0x00);
        self.outgoing.push(atype);
        let mut i: usize = 0;
        while i < addr.len()
            invariant
                i <= addr@.len(),
                self.outgoing@ == before + seq![VERSION_NUMBER, rep, 0x00u8, atype] + addr@.take(
                    i as int,
                ),
                self.state == old(self).state,
                self.incoming == old(self).incoming,
                self.target == old(self).target,
                self.failure == old(self).failure,
            decreases addr@.len() - i,
        {
            self.outgoing.push(addr[i]);
            i = i + 1;
            assert(addr@.take(i as int) =~= addr@.take(i - 1).push(addr@[i - 1]));
        }
        assert(addr@.take(i as int) =~= addr@);
        write_be16(&mut self.outgoing, port);
        assert(self.outgoing@ =~= before + reply_bytes(rep, atype, addr@, port));
    }

    /// Queues a reply that reports the failure `rep`.
    pub fn send_error_reply(&mut self, rep: u8)
        ensures
            final(self)@ == old(self)@.send(error_reply_bytes(rep)),
    {
        let addr: [u8; 4] = [0x00, 0x00, 0x00, 0x00];
        assert(addr@ =~= seq![0x00u8, 0x00u8, 0x00u8, 0x00u8]);
        self.send_reply(rep, 0x00, &addr, 0);
    }

    /// Closes the session on `error`, after queueing the reply that belongs
    /// to the error, where one does.
    fn fail(&mut self, error: SocksError)
        ensures
            final(self)@ == old(self)@.fail(error),
    {
        match error.reply_code() {
            Some(code) => {
                self.send_error_reply(code.to_byte());
            },
            None => {},
        }
        self.state = SessionState::Closed;
        self.failure = Some(error);
    }

    /// Takes up the first `n` bytes received.
    fn consume(&mut self, n: usize)
        requires
            n <= old(self)@.incoming.len(),
        ensures
            final(self)@ == old(self)@.consume(n as int),
    {
        let rest = self.incoming.split_off(n);
        self.incoming = rest;
    }

    /// Checks the version byte of the greeting, if the session waits for it
    /// and it has arrived. Any other version closes the session.
    pub fn read_client_version(&mut self)
        ensures
            final(self)@ == if old(self)@.state == SessionState::AwaitingGreeting {
                old(self)@.read_version()
            } else {
                old(self)@
            },
    {
        if self.state == SessionState::AwaitingGreeting {
            match parse_version(self.incoming.as_slice()) {
                Parsed::Incomplete => {},
                Parsed::Rejected(e) => {
                    self.fail(e);
                },
                Parsed::Complete { value: _, consumed } => {
                    self.consume(consumed);
                    self.state = SessionState::NegotiatingAuth;
                },
            }
        }
    }

    /// Reads the greeting as far as it has arrived and, once it is whole,
    /// queues the answer: `05 00` where the client offers "no authentication
    /// required", else `05 FF`, which closes the session.
    pub fn read_client_hello(&mut self)
        ensures
            final(self)@ == old(self)@.read_hello(),
    {
        self.read_client_version();
        if self.state == SessionState::NegotiatingAuth {
            match parse_methods(self.incoming.as_slice()) {
                Parsed::Incomplete => {},
                Parsed::Rejected(e) => {
                    self.fail(e);
                },
                Parsed::Complete { value: methods, consumed } => {
                    self.consume(consumed);
                    if accepts_no_auth(methods.as_slice()) {
                        self.outgoing.push(VERSION_NUMBER);
                        self.outgoing.push(AUTH_NONE);
                        self.state = SessionState::AwaitingRequest;
                        assert(self.outgoing@ =~= old(self).outgoing@ + method_reply_bytes(
                            AUTH_NONE,
                        ));
                    } else {
                        self.outgoing.push(VERSION_NUMBER);
                        self.outgoing.push(AUTH_NO_ACCEPTABLE);
                        assert(self.outgoing@ =~= old(self).outgoing@ + method_reply_bytes(
                            AUTH_NO_ACCEPTABLE,
                        ));
                        self.fail(SocksError::NoAcceptableMethod);
                    }
                },
            }
        }
    }

    /// Reads the request, if the session waits for it and it has arrived
    /// whole. A CONNECT makes the session dial; anything else closes it, with
    /// the reply that tells the client why where there is one.
    pub fn read_client_request(&mut self)
        ensures
            final(self)@ == if old(self)@.state == SessionState::AwaitingRequest {
                old(self)@.read_request()
            } else {
                old(self)@
            },
    {
        if self.state == SessionState::AwaitingRequest {
            match parse_request(self.incoming.as_slice()) {
                Parsed::Incomplete => {},
                Parsed::Rejected(e) => {
                    self.fail(e);
                },
                Parsed::Complete { value: request, consumed } => {
                    self.consume(consumed);
                    if request.command == Command::Connect {
                        self.target = Some(request.target);
                        self.state = SessionState::Dialing;
                    } else {
                        self.fail(SocksError::UnsupportedCommand);
                    }
                },
            }
        }
    }

    /// What the state asks of the driver.
    pub fn next_action(&self) -> (action: SessionAction)
        ensures
            action@ == self@.next_action(),
    {
        match self.state {
            SessionState::AwaitingGreeting => SessionAction::Read,
            SessionState::NegotiatingAuth => SessionAction::Read,
            SessionState::AwaitingRequest => SessionAction::Read,
            SessionState::Dialing => match &self.target {
                Some(target) => match &target.address {
                    Address::Domain { name, resolved: None } => SessionAction::Resolve(
                        name.clone(),
                    ),
                    _ => SessionAction::Dial(target.clone()),
                },
                None => SessionAction::Close,
            },
            SessionState::Relaying => SessionAction::Relay,
            SessionState::Closed => SessionAction::Close,
        }
    }

    /// Takes in bytes from the client and reads on as far as they allow.
    fn on_client_data(&mut self, bytes: Vec<u8>)
        ensures
            final(self)@ == old(self)@.on_event(SessionEventView::ClientData(bytes@)),
    {
        let reading = self.state == SessionState::AwaitingGreeting || self.state
            == SessionState::NegotiatingAuth || self.state == SessionState::AwaitingRequest;
        if reading {
            let mut bytes = bytes;
            self.incoming.append(&mut bytes);
            self.read_client_hello();
            self.read_client_request();
        } else {
            self.state = SessionState::Closed;
        }
    }

    /// Takes in the resolver's answer for the domain name being dialed.
    fn on_resolved(&mut self, found: Vec<IpAddress>)
        ensures
            final(self)@ == old(self)@.on_event(SessionEventView::Resolved(found@)),
    {
        if self.state == SessionState::Dialing {
            match self.target.take() {
                Some(target) => {
                    let mut target = target;
                    if target.address.is_resolved() {
                        self.target = Some(target);
                        self.state = SessionState::Closed;
                    } else {
                        let outcome = target.address.resolve(found.as_slice());
                        self.target = Some(target);
                        match outcome {
                            Ok(()) => {},
                            Err(e) => {
                                self.fail(e);
                            },
                        }
                    }
                },
                None => {
                    self.state = SessionState::Closed;
                },
            }
        } else {
            self.state = SessionState::Closed;
        }
    }

    /// Takes in the news that the target was reached: the client is told of
    /// success and of the bound address, and relaying begins.
    fn on_connected(&mut self, ip: IpAddress, port: u16)
        ensures
            final(self)@ == old(self)@.on_event(SessionEventView::Connected { ip, port }),
    {
        let dialing = self.state == SessionState::Dialing && match &self.target {
            Some(target) => target.address.is_resolved(),
            None => false,
        };
        if dialing {
            let addr = ip.to_bytes();
            self.send_reply(REPLY_SUCCESS, ip.atype(), addr.as_slice(), port);
            self.state = SessionState::Relaying;
        } else {
            self.state = SessionState::Closed;
        }
    }

    /// Takes in the news that the target was not reached: the client is
    /// sent the reply code closest to the failure.
    fn on_dial_failed(&mut self, error: DialError)
        ensures
            final(self)@ == old(self)@.on_event(SessionEventView::DialFailed(error)),
    {
        if self.state == SessionState::Dialing && self.target.is_some() {
            self.fail(SocksError::Dial(error));
        } else {
            self.state = SessionState::Closed;
        }
    }
}

/// Moves a session on by one event and says what its driver has to do next.
///
/// The driver first writes the bytes queued by the session to the client,
/// then carries out the action and comes back with the event that followed.
pub fn handle_stream(conn: &mut SocksConnection, event: SessionEvent) -> (action: SessionAction)
    ensures
        final(conn)@ == old(conn)@.on_event(event@),
        action@ == final(conn)@.next_action(),
{
    match event {
        SessionEvent::ClientData(bytes) => {
            conn.on_client_data(bytes);
        },
        SessionEvent::Resolved(found) => {
            conn.on_resolved(found);
        },
        SessionEvent::Connected { ip, port } => {
            conn.on_connected(ip, port);
        },
        SessionEvent::DialFailed(error) => {
            conn.on_dial_failed(error);
        },
        SessionEvent::Ended => {
            conn.state = SessionState::Closed;
        },
    }
    conn.next_action()
}

/// A greeting that does not offer "no authentication required" is answered
/// with `05 FF` and closes the session; one that offers it, among other
/// methods or alone, is answered with `05 00` and the session goes on to
/// wait for the request.
pub proof fn lemma_greeting_is_answered(methods: Seq<u8>)
    requires
        methods.len() <= 255,
    ensures
        ({
            let greeting = seq![VERSION_NUMBER, methods.len() as u8] + methods;
            let after = SessionView::initial().on_event(SessionEventView::ClientData(greeting));
            &&& after.incoming.len() == 0
            &&& after.target is None
            &&& if methods.contains(AUTH_NONE) {
                &&& after.outgoing == seq![0x05u8, 0x00u8]
                &&& after.state == SessionState::AwaitingRequest
                &&& after.failure is None
                &&& after.next_action() == SessionActionView::Read
            } else {
                &&& after.outgoing == seq![0x05u8, 0xFFu8]
                &&& after.state == SessionState::Closed
                &&& after.failure == Some(SocksError::NoAcceptableMethod)
                &&& after.next_action() == SessionActionView::Close
            }
        }),
{
    let greeting = seq![VERSION_NUMBER, methods.len() as u8] + methods;
    let fed = SessionView { incoming: Seq::<u8>::empty() + greeting, ..SessionView::initial() };
    assert(fed.incoming =~= greeting);
    let versioned = fed.read_version();
    assert(versioned.incoming =~= seq![methods.len() as u8] + methods);
    assert(versioned.incoming.subrange(1, 1 + methods.len() as int) =~= methods);
    let answered = versioned.read_methods();
    assert(versioned.incoming.skip(1 + methods.len() as int) =~= Seq::<u8>::empty());
    if methods.contains(AUTH_NONE) {
        assert(answered.outgoing =~= seq![0x05u8, 0x00u8]);
        assert(spec_parse_request(answered.incoming) is Incomplete);
    } else {
        assert(answered.outgoing =~= seq![0x05u8, 0xFFu8]);
    }
}

/// A request that is whole and in order but carries a command other than
/// CONNECT, be it BIND, UDP ASSOCIATE or a byte that names no command, is
/// answered with reply code `0x07` and closes the session: the driver is
/// told to close, never to resolve or to dial.
pub proof fn lemma_other_commands_are_refused(before: SessionView, data: Seq<u8>)
    requires
        before.state == SessionState::AwaitingRequest,
        match spec_parse_request(before.incoming + data) {
            Parsed::Complete { value, .. } => value.command != Command::Connect,
            Parsed::Rejected(e) => e == SocksError::UnsupportedCommand,
            Parsed::Incomplete => false,
        },
    ensures
        ({
            let after = before.on_event(SessionEventView::ClientData(data));
            &&& after.outgoing == before.outgoing + error_reply_bytes(0x07)
            &&& after.state == SessionState::Closed
            &&& after.failure == Some(SocksError::UnsupportedCommand)
            &&& after.target == before.target
            &&& after.next_action() == SessionActionView::Close
        }),
{
}

/// The command bytes `0x02` and `0x04` stand for BIND and UDP ASSOCIATE,
/// so a well-formed request that carries one of them is one that
/// `lemma_other_commands_are_refused` speaks of.
pub proof fn lemma_bind_and_udp_are_other_commands(request: Seq<u8>)
    requires
        spec_parse_request(request) is Complete,
        request[1] == 0x02 || request[1] == 0x04,
    ensures
        spec_parse_request(request)->value.command != Command::Connect,
{
}

/// A request whose address type is none of IPv4, IPv6 and domain name is
/// answered with reply code `0x08` and closes the session, whatever command
/// it carries and whatever follows the address type. None of its bytes are
/// taken up.
pub proof fn lemma_unknown_address_type_is_refused(before: SessionView, data: Seq<u8>)
    requires
        before.state == SessionState::AwaitingRequest,
        (before.incoming + data).len() >= 4,
        (before.incoming + data)[0] == VERSION_NUMBER,
        (before.incoming + data)[2] == 0x00,
        !is_address_type((before.incoming + data)[3]),
    ensures
        ({
            let after = before.on_event(SessionEventView::ClientData(data));
            &&& after.outgoing == before.outgoing + error_reply_bytes(0x08)
            &&& after.state == SessionState::Closed
            &&& after.failure == Some(SocksError::UnsupportedAddressType)
            &&& SocksError::UnsupportedAddressType.spec_kind() == ErrorKind::UnsupportedFeature
            &&& after.incoming == before.incoming + data
            &&& after.next_action() == SessionActionView::Close
        }),
{
}

/// A closed session stays closed: whatever its driver reports, nothing
/// more is queued for the client and all the session asks for is to close.
pub proof fn lemma_closed_is_final(before: SessionView, event: SessionEventView)
    requires
        before.state == SessionState::Closed,
    ensures
        before.on_event(event) == before,
        before.next_action() == SessionActionView::Close,
{
}

} // verus!
