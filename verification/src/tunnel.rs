//! The relay tunnel: many logical streams over one control channel.
//!
//! Each stream carries one SOCKS session's bytes to the relay server and
//! back, tagged with the stream's id. Ids are handed out in rising order,
//! starting at one, and are never used twice on one tunnel; a tunnel holds
//! at most as many streams at a time as it was set up for, and refuses to
//! open more until one is gone.
//!
//! The tunnel neither seals nor opens payloads and touches no socket. Its
//! driver seals each message the tunnel hands out before it queues it on
//! the channel, and opens each payload the channel yields before it hands
//! it to the tunnel.

use vstd::prelude::*;
use crate::address::{Endpoint, EndpointView};
use crate::error::{ChannelError, DialError, TunnelError};
use crate::frame::{spec_decode_frame, frame_bytes, FramedChannel, FramedChannelView};
use crate::handshake::HandshakeProtocol;
use crate::keys::{SessionKeyState, SessionKeyStateView, SESSION_KEY_LEN};
use crate::message::{decode_message, spec_decode_message, Message, MessageView};
use crate::parsed::Parsed;

verus! {

/// One end of a stream.
#[derive(Clone, Copy, Debug, PartialEq, Eq, Structural)]
pub enum Side {
    /// This proxy, on behalf of its client.
    Local,
    /// The relay server, on behalf of the target.
    Remote,
}

/// Where a logical stream stands.
#[derive(Clone, Copy, Debug, PartialEq, Eq, Structural)]
pub enum StreamState {
    /// The relay server was asked to connect and has not answered.
    Opening,
    /// Bytes flow both ways.
    Open,
    /// The side named has said that it sends no more.
    HalfClosed(Side),
    /// Both sides are done: the tunnel has let go of the stream.
    Closed,
}

/// Why a stream cannot be used.
#[derive(Clone, Copy, Debug, PartialEq, Eq, Structural)]
pub enum StreamError {
    /// The tunnel is lost, and all its streams with it.
    TunnelLost,
    /// The tunnel holds no stream of this id.
    UnknownStream,
    /// The stream is not in a state that allows this.
    NotOpen,
}

/// What a message from the relay server means for the sessions.
#[derive(Debug, PartialEq, Eq)]
pub enum Delivery {
    /// Nothing that a session has to hear of.
    Nothing,
    /// The stream is connected: its session can tell the client so.
    Opened(u32),
    /// The stream could not be connected: its session has to say why.
    Failed(u32, DialError),
    /// Bytes for the stream wait to be fetched.
    Data(u32),
    /// The relay server sends no more on the stream.
    Closed(u32),
    /// Traffic is sealed under a new key from now on.
    KeyRotated,
    /// The tunnel is lost. These streams went with it, and each of their
    /// sessions has to be told.
    Lost(Vec<u32>),
}

/// A [`Delivery`] as a mathematical value.
pub enum DeliveryView {
    Nothing,
    Opened(u32),
    Failed(u32, DialError),
    Data(u32),
    Closed(u32),
    KeyRotated,
    Lost(Seq<u32>),
}

impl View for Delivery {
    type V = DeliveryView;

    open spec fn view(&self) -> DeliveryView {
        match *self {
            Delivery::Nothing => DeliveryView::Nothing,
            Delivery::Opened(id) => DeliveryView::Opened(id),
            Delivery::Failed(id, e) => DeliveryView::Failed(id, e),
            Delivery::Data(id) => DeliveryView::Data(id),
            Delivery::Closed(id) => DeliveryView::Closed(id),
            Delivery::KeyRotated => DeliveryView::KeyRotated,
            Delivery::Lost(ids) => DeliveryView::Lost(ids@),
        }
    }
}

/// One stream of a tunnel.
#[derive(Debug, PartialEq, Eq)]
pub struct LogicalStream {
    pub stream_id: u32,
    /// Where the relay server connects the stream to.
    pub target: Endpoint,
    pub state: StreamState,
    /// Bytes that came for the stream and were not fetched yet.
    pub inbox: Vec<u8>,
}

/// A [`LogicalStream`] as a mathematical value.
pub struct StreamView {
    pub stream_id: u32,
    pub target: EndpointView,
    pub state: StreamState,
    pub inbox: Seq<u8>,
}

impl View for LogicalStream {
    type V = StreamView;

    open spec fn view(&self) -> StreamView {
        StreamView {
            stream_id: self.stream_id,
            target: self.target@,
            state: self.state,
            inbox: self.inbox@,
        }
    }
}

/// The streams of a tunnel as mathematical values, in the order they were
/// opened.
pub open spec fn streams_view(streams: Seq<LogicalStream>) -> Seq<StreamView> {
    Seq::new(streams.len(), |i: int| streams[i]@)
}

/// The ids of `streams`, in their order.
pub open spec fn stream_ids(streams: Seq<StreamView>) -> Seq<u32> {
    Seq::new(streams.len(), |i: int| streams[i].stream_id)
}

/// Whether `i` is the first place in `streams` that holds a stream of
/// this id.
pub open spec fn is_first(streams: Seq<StreamView>, id: u32, i: int) -> bool {
    &&& 0 <= i < streams.len()
    &&& streams[i].stream_id == id
    &&& forall|j: int| 0 <= j < i ==> streams[j].stream_id != id
}

/// The place of the stream of this id in `streams`, if there is one.
pub open spec fn position(streams: Seq<StreamView>, id: u32) -> Option<int> {
    if exists|i: int| is_first(streams, id, i) {
        Some(choose|i: int| is_first(streams, id, i))
    } else {
        None
    }
}

/// A tunnel as a mathematical value.
pub struct TunnelView {
    pub channel: FramedChannelView,
    pub keys: SessionKeyStateView,
    /// The streams the tunnel holds, in the order they were opened.
    pub streams: Seq<StreamView>,
    /// The id the next stream gets.
    pub next_id: u32,
    /// How many streams the tunnel holds at most.
    pub max_streams: usize,
    /// Why the tunnel was lost, where it was.
    pub failure: Option<ChannelError>,
}

impl TunnelView {
    /// What every tunnel keeps to: its streams have ids that rise along
    /// their order, from one up and below the next id to hand out; none of
    /// them is closed; there are no more of them than the tunnel allows,
    /// and none at all once the tunnel is lost.
    pub open spec fn wf(self) -> bool {
        &&& 1 <= self.next_id
        &&& self.streams.len() <= self.max_streams
        &&& forall|i: int|
            0 <= i < self.streams.len() ==> 1 <= (#[trigger] self.streams[i]).stream_id
                < self.next_id
        &&& forall|i: int, j: int|
            0 <= i < j < self.streams.len() ==> (#[trigger] self.streams[i]).stream_id < (
            #[trigger] self.streams[j]).stream_id
        &&& forall|i: int|
            0 <= i < self.streams.len() ==> (#[trigger] self.streams[i]).state
                != StreamState::Closed
        &&& self.failure is Some ==> self.streams.len() == 0
    }

    /// The stream of this id, if the tunnel holds one.
    pub open spec fn stream(self, id: u32) -> Option<StreamView> {
        match position(self.streams, id) {
            Some(i) => Some(self.streams[i]),
            None => None,
        }
    }

    /// Where the stream of this id stands: as the tunnel holds it; closed,
    /// if the id was handed out and the stream is gone; `None` for an id
    /// that was never handed out.
    pub open spec fn stream_state(self, id: u32) -> Option<StreamState> {
        match self.stream(id) {
            Some(stream) => Some(stream.state),
            None => if 1 <= id < self.next_id {
                Some(StreamState::Closed)
            } else {
                None
            },
        }
    }

    /// The tunnel with the stream at place `i` replaced.
    pub open spec fn put(self, i: int, stream: StreamView) -> TunnelView {
        TunnelView { streams: self.streams.update(i, stream), ..self }
    }

    /// The tunnel without the stream at place `i`.
    pub open spec fn drop_at(self, i: int) -> TunnelView {
        TunnelView { streams: self.streams.remove(i), ..self }
    }

    /// Opening a stream to `target`. The stream gets the next id and waits
    /// for the relay server's answer to the `OpenStream` message that goes
    /// out. It is refused on a lost tunnel, for a domain name that was not
    /// resolved, and while the tunnel holds as many streams as it allows or
    /// has no id left to give.
    pub open spec fn open_stream(self, target: EndpointView) -> Result<
        (TunnelView, MessageView),
        DialError,
    > {
        if self.failure is Some {
            Err(DialError::TunnelLost)
        } else if target.address.ip() is None {
            Err(DialError::ResolutionFailed)
        } else if self.streams.len() >= self.max_streams || self.next_id == u32::MAX {
            Err(DialError::TooManyStreams)
        } else {
            Ok(
                (
                    TunnelView {
                        streams: self.streams.push(
                            StreamView {
                                stream_id: self.next_id,
                                target,
                                state: StreamState::Opening,
                                inbox: Seq::empty(),
                            },
                        ),
                        next_id: (self.next_id + 1) as u32,
                        ..self
                    },
                    MessageView::OpenStream {
                        stream_id: self.next_id,
                        ip: target.address.ip().unwrap(),
                        port: target.port,
                    },
                ),
            )
        }
    }

    /// Sending `data` on a stream: it goes out as one `StreamData` message
    /// under the stream's id, if the local side has not closed the stream
    /// and the relay server has connected it.
    pub open spec fn stream_send(self, id: u32, data: Seq<u8>) -> Result<MessageView, StreamError> {
        if self.failure is Some {
            Err(StreamError::TunnelLost)
        } else {
            match self.stream(id) {
                None => Err(StreamError::UnknownStream),
                Some(stream) => if stream.state == StreamState::Open || stream.state
                    == StreamState::HalfClosed(Side::Remote) {
                    Ok(MessageView::StreamData { stream_id: id, data })
                } else {
                    Err(StreamError::NotOpen)
                },
            }
        }
    }

    /// Fetching what came for a stream: all of it, in the order it came,
    /// and the stream's inbox is empty afterwards.
    pub open spec fn stream_recv(self, id: u32) -> Result<(TunnelView, Seq<u8>), StreamError> {
        if self.failure is Some {
            Err(StreamError::TunnelLost)
        } else {
            match position(self.streams, id) {
                None => Err(StreamError::UnknownStream),
                Some(i) => Ok(
                    (
                        self.put(i, StreamView { inbox: Seq::empty(), ..self.streams[i] }),
                        self.streams[i].inbox,
                    ),
                ),
            }
        }
    }

    /// Closing a stream from the local side: a `StreamClose` message goes
    /// out. The stream is half closed afterwards, or gone if the relay
    /// server had closed its side already. A stream that the local side
    /// closed before cannot be closed again.
    pub open spec fn close_stream(self, id: u32) -> Result<(TunnelView, MessageView), StreamError> {
        if self.failure is Some {
            Err(StreamError::TunnelLost)
        } else {
            match position(self.streams, id) {
                None => Err(StreamError::UnknownStream),
                Some(i) => {
                    let stream = self.streams[i];
                    let message = MessageView::StreamClose { stream_id: id };
                    match stream.state {
                        StreamState::Opening | StreamState::Open => Ok(
                            (
                                self.put(
                                    i,
                                    StreamView {
                                        state: StreamState::HalfClosed(Side::Local),
                                        ..stream
                                    },
                                ),
                                message,
                            ),
                        ),
                        StreamState::HalfClosed(Side::Remote) => Ok((self.drop_at(i), message)),
                        _ => Err(StreamError::NotOpen),
                    }
                },
            }
        }
    }

    /// Giving the tunnel up because of `error`: every stream goes, and the
    /// ids of those that went are handed back so that their sessions can be
    /// told. A tunnel that is lost already stays as it was lost.
    pub open spec fn fail(self, error: ChannelError) -> (TunnelView, Seq<u32>) {
        if self.failure is Some {
            (self, Seq::empty())
        } else {
            (
                TunnelView { streams: Seq::empty(), failure: Some(error), ..self },
                stream_ids(self.streams),
            )
        }
    }

    /// Replacing the session key by `key`, whole.
    pub open spec fn with_session_key(self, key: Seq<u8>) -> TunnelView {
        TunnelView {
            keys: SessionKeyStateView { symmetric_session_key: key, ..self.keys },
            ..self
        }
    }

    /// Rotating the session key from the local side: the key is replaced
    /// and a `KeyRotate` message with the new key goes out. Refused on a
    /// lost tunnel and for a key that has not the length of a key.
    pub open spec fn rotate_key(self, key: Seq<u8>) -> Option<(TunnelView, MessageView)> {
        if self.failure is Some || key.len() != SESSION_KEY_LEN {
            None
        } else {
            Some((self.with_session_key(key), MessageView::KeyRotate { key }))
        }
    }

    /// The tunnel with `channel` for its channel.
    pub open spec fn with_channel(self, channel: FramedChannelView) -> TunnelView {
        TunnelView { channel, ..self }
    }

    /// What a message from the relay server does to the stream at place
    /// `i`, which it names, and what the sessions hear of it.
    pub open spec fn deliver_to(self, i: int, message: MessageView) -> (TunnelView, DeliveryView) {
        let stream = self.streams[i];
        let id = stream.stream_id;
        match (message, stream.state) {
            (MessageView::StreamOpened { .. }, StreamState::Opening) => (
                self.put(i, StreamView { state: StreamState::Open, ..stream }),
                DeliveryView::Opened(id),
            ),
            (MessageView::StreamFailed { code, .. }, StreamState::Opening) => (
                self.drop_at(i),
                DeliveryView::Failed(id, DialError::Refused(code)),
            ),
            (MessageView::StreamFailed { .. }, StreamState::HalfClosed(Side::Local)) => (
                self.drop_at(i),
                DeliveryView::Nothing,
            ),
            (MessageView::StreamData { data, .. }, StreamState::Open) => (
                self.put(i, StreamView { inbox: stream.inbox + data, ..stream }),
                DeliveryView::Data(id),
            ),
            (MessageView::StreamClose { .. }, StreamState::Opening) => (
                self.drop_at(i),
                DeliveryView::Failed(id, DialError::Other),
            ),
            (MessageView::StreamClose { .. }, StreamState::Open) => (
                self.put(i, StreamView { state: StreamState::HalfClosed(Side::Remote), ..stream }),
                DeliveryView::Closed(id),
            ),
            (MessageView::StreamClose { .. }, StreamState::HalfClosed(Side::Local)) => (
                self.drop_at(i),
                DeliveryView::Nothing,
            ),
            _ => (self, DeliveryView::Nothing),
        }
    }

    /// What a message from the relay server does. A new key of the right
    /// length replaces the session key. Any other message acts on the
    /// stream it names and on no other; where the tunnel holds no such
    /// stream, or the stream is in no state to take the message, it is
    /// dropped. A lost tunnel drops everything.
    pub open spec fn on_message(self, message: MessageView) -> (TunnelView, DeliveryView) {
        if self.failure is Some {
            (self, DeliveryView::Nothing)
        } else {
            match message {
                MessageView::KeyRotate { key } => if key.len() == SESSION_KEY_LEN {
                    (self.with_session_key(key), DeliveryView::KeyRotated)
                } else {
                    (self, DeliveryView::Nothing)
                },
                MessageView::OpenStream { .. } => (self, DeliveryView::Nothing),
                _ => match position(self.streams, message.stream_id()) {
                    Some(i) => self.deliver_to(i, message),
                    None => (self, DeliveryView::Nothing),
                },
            }
        }
    }

    /// What an opened payload from the relay server does: it is read as a
    /// message and acted on, or, where it is no message, the tunnel is lost.
    pub open spec fn receive(self, payload: Seq<u8>) -> (TunnelView, DeliveryView) {
        match spec_decode_message(payload) {
            Ok(message) => self.on_message(message),
            Err(e) => if self.failure is Some {
                (self, DeliveryView::Nothing)
            } else {
                let (lost, ids) = self.fail(e);
                (lost, DeliveryView::Lost(ids))
            },
        }
    }
}

/// The place at which a stream of this id is found first is its position.
pub proof fn lemma_position_is_first(streams: Seq<StreamView>, id: u32, i: int)
    requires
        is_first(streams, id, i),
    ensures
        position(streams, id) == Some(i),
{
    let k = choose|k: int| is_first(streams, id, k);
    if k < i {
        assert(streams[k].stream_id != id);
    } else if i < k {
        assert(streams[i].stream_id != id);
    }
}

/// An id that no stream holds has no position.
pub proof fn lemma_position_of_absent(streams: Seq<StreamView>, id: u32)
    requires
        forall|j: int| 0 <= j < streams.len() ==> streams[j].stream_id != id,
    ensures
        position(streams, id) is None,
{
}

/// A tunnel stays well formed when one of its streams is replaced by a
/// stream of the same id that is not closed.
pub proof fn lemma_put_keeps_wf(tunnel: TunnelView, i: int, stream: StreamView)
    requires
        0 <= i < tunnel.streams.len(),
        stream.stream_id == tunnel.streams[i].stream_id,
        stream.state != StreamState::Closed,
    ensures
        tunnel.wf() ==> tunnel.put(i, stream).wf(),
{
    if tunnel.wf() {
        let after = tunnel.put(i, stream);
        assert forall|a: int, b: int| 0 <= a < b < after.streams.len() implies (
        #[trigger] after.streams[a]).stream_id < (#[trigger] after.streams[b]).stream_id by {
            assert(tunnel.streams[a].stream_id < tunnel.streams[b].stream_id);
        }
        assert forall|a: int| 0 <= a < after.streams.len() implies 1 <= (
        #[trigger] after.streams[a]).stream_id < after.next_id && after.streams[a].state
            != StreamState::Closed by {
            assert(1 <= tunnel.streams[a].stream_id < tunnel.next_id);
            assert(tunnel.streams[a].state != StreamState::Closed);
        }
    }
}

/// A tunnel stays well formed when one of its streams goes.
pub proof fn lemma_drop_keeps_wf(tunnel: TunnelView, i: int)
    requires
        0 <= i < tunnel.streams.len(),
    ensures
        tunnel.wf() ==> tunnel.drop_at(i).wf(),
{
    if tunnel.wf() {
        let after = tunnel.drop_at(i);
        assert forall|a: int, b: int| 0 <= a < b < after.streams.len() implies (
        #[trigger] after.streams[a]).stream_id < (#[trigger] after.streams[b]).stream_id by {
            let a0 = if a < i { a } else { a + 1 };
            let b0 = if b < i { b } else { b + 1 };
            assert(tunnel.streams[a0].stream_id < tunnel.streams[b0].stream_id);
        }
        assert forall|a: int| 0 <= a < after.streams.len() implies 1 <= (
        #[trigger] after.streams[a]).stream_id < after.next_id && after.streams[a].state
            != StreamState::Closed by {
            let a0 = if a < i { a } else { a + 1 };
            assert(1 <= tunnel.streams[a0].stream_id < tunnel.next_id);
            assert(tunnel.streams[a0].state != StreamState::Closed);
        }
    }
}

/// An established tunnel to a relay server.
pub struct RelayTunnel {
    channel: FramedChannel,
    keys: SessionKeyState,
    streams: Vec<LogicalStream>,
    next_id: u32,
    max_streams: usize,
    failure: Option<ChannelError>,
}

impl View for RelayTunnel {
    type V = TunnelView;

    closed spec fn view(&self) -> TunnelView {
        TunnelView {
            channel: self.channel@,
            keys: self.keys@,
            streams: streams_view(self.streams@),
            next_id: self.next_id,
            max_streams: self.max_streams,
            failure: self.failure,
        }
    }
}

impl RelayTunnel {
    /// The tunnel that a handshake has set up on `channel`. There is no
    /// other way to a tunnel: a handshake that is not established yields
    /// its failure, `HandshakeFailed` if it has none, and no tunnel.
    pub fn establish(handshake: HandshakeProtocol, channel: FramedChannel, max_streams: usize) -> (
        tunnel: Result<RelayTunnel, TunnelError>)
        ensures
            tunnel is Ok <==> handshake@.state == crate::handshake::HandshakeState::Established,
            tunnel matches Ok(t) ==> t@ == (TunnelView {
                channel: channel@,
                keys: SessionKeyStateView {
                    ephemeral_keypair: handshake@.ephemeral_keypair,
                    peer_verify_key: handshake@.peer_verify_key,
                    symmetric_session_key: handshake@.session_key,
                },
                streams: Seq::empty(),
                next_id: 1,
                max_streams,
                failure: None,
            }) && t@.wf(),
            tunnel matches Err(e) ==> e == match handshake@.failure {
                Some(failure) => failure,
                None => TunnelError::HandshakeFailed,
            },
    {
        match handshake.into_keys() {
            Ok(keys) => {
                let tunnel = RelayTunnel {
                    channel,
                    keys,
                    streams: Vec::new(),
                    next_id: 1,
                    max_streams,
                    failure: None,
                };
                assert(tunnel@.streams =~= Seq::empty());
                Ok(tunnel)
            },
            Err(e) => Err(e),
        }
    }

    /// Whether the tunnel is lost.
    pub fn is_lost(&self) -> (lost: bool)
        ensures
            lost == self@.failure is Some,
    {
        self.failure.is_some()
    }

    /// Why the tunnel was lost, where it was.
    pub fn failure(&self) -> (failure: Option<ChannelError>)
        ensures
            failure == self@.failure,
    {
        self.failure
    }

    /// The keys of the tunnel.
    pub fn keys(&self) -> (keys: &SessionKeyState)
        ensures
            keys@ == self@.keys,
    {
        &self.keys
    }

    /// How many streams the tunnel holds.
    pub fn stream_count(&self) -> (count: usize)
        ensures
            count == self@.streams.len(),
    {
        self.streams.len()
    }

    /// The place of the stream of this id.
    fn find(&self, id: u32) -> (place: Option<usize>)
        ensures
            match place {
                Some(i) => position(self@.streams, id) == Some(i as int) && i < self.streams@.len(),
                None => position(self@.streams, id) is None,
            },
    {
        let mut i: usize = 0;
        while i < self.streams.len()
            invariant
                i <= self.streams@.len(),
                forall|j: int| 0 <= j < i ==> self@.streams[j].stream_id != id,
            decreases self.streams@.len() - i,
        {
            if self.streams[i].stream_id == id {
                proof {
                    lemma_position_is_first(self@.streams, id, i as int);
                }
                return Some(i);
            }
            i = i + 1;
        }
        proof {
            lemma_position_of_absent(self@.streams, id);
        }
        None
    }

    /// Where the stream of this id stands: as the tunnel holds it; closed,
    /// if the id was handed out and the stream is gone; `None` for an id
    /// that was never handed out.
    pub fn stream_state(&self, id: u32) -> (state: Option<StreamState>)
        ensures
            state == self@.stream_state(id),
    {
        match self.find(id) {
            Some(i) => Some(self.streams[i].state),
            None => if 1 <= id && id < self.next_id {
                Some(StreamState::Closed)
            } else {
                None
            },
        }
    }

    /// Opens a stream to `target` and hands back the `OpenStream` message
    /// to send; the message names the id the stream got. Nothing changes
    /// where the stream is refused.
    pub fn open_stream(&mut self, target: Endpoint) -> (opened: Result<Message, DialError>)
        ensures
            match opened {
                Ok(message) => old(self)@.open_stream(target@) == Ok::<
                    (TunnelView, MessageView),
                    DialError,
                >((final(self)@, message@)),
                Err(e) => old(self)@.open_stream(target@) == Err::<
                    (TunnelView, MessageView),
                    DialError,
                >(e) && final(self)@ == old(self)@,
            },
            old(self)@.wf() ==> final(self)@.wf(),
    {
        if self.failure.is_some() {
            return Err(DialError::TunnelLost);
        }
        let ip = match target.address.ip() {
            Some(ip) => ip,
            None => {
                return Err(DialError::ResolutionFailed);
            },
        };
        if self.streams.len() >= self.max_streams || self.next_id == u32::MAX {
            return Err(DialError::TooManyStreams);
        }
        let stream_id: u32 = self.next_id;
        let port: u16 = target.port;
        let ghost before = self@;
        self.streams.push(
            LogicalStream { stream_id, target, state: StreamState::Opening, inbox: Vec::new() },
        );
        self.next_id = stream_id + 1;
        assert(self@.streams =~= before.streams.push(
            StreamView {
                stream_id,
                target: target@,
                state: StreamState::Opening,
                inbox: Seq::empty(),
            },
        ));
        Ok(Message::OpenStream { stream_id, ip, port })
    }
}

impl RelayTunnel {
    /// Takes the stream at place `i` out of the tunnel.
    fn take_at(&mut self, i: usize) -> (stream: LogicalStream)
        requires
            i < old(self)@.streams.len(),
        ensures
            final(self)@ == old(self)@.drop_at(i as int),
            stream@ == old(self)@.streams[i as int],
    {
        let ghost before = self@;
        let stream = self.streams.remove(i);
        assert(self@.streams =~= before.streams.remove(i as int));
        stream
    }

    /// Wraps `data` for a stream: the `StreamData` message to send. The
    /// tunnel itself does not change.
    pub fn stream_send(&self, id: u32, data: &[u8]) -> (wrapped: Result<Message, StreamError>)
        ensures
            match wrapped {
                Ok(message) => self@.stream_send(id, data@) == Ok::<MessageView, StreamError>(
                    message@,
                ),
                Err(e) => self@.stream_send(id, data@) == Err::<MessageView, StreamError>(e),
            },
    {
        if self.failure.is_some() {
            return Err(StreamError::TunnelLost);
        }
        match self.find(id) {
            None => Err(StreamError::UnknownStream),
            Some(i) => {
                let state = self.streams[i].state;
                if state == StreamState::Open || state == StreamState::HalfClosed(Side::Remote) {
                    Ok(
                        Message::StreamData {
                            stream_id: id,
                            data: crate::keys::copy_bytes(data),
                        },
                    )
                } else {
                    Err(StreamError::NotOpen)
                }
            },
        }
    }

    /// Fetches what came for a stream since it was last fetched.
    pub fn stream_recv(&mut self, id: u32) -> (fetched: Result<Vec<u8>, StreamError>)
        ensures
            match fetched {
                Ok(bytes) => old(self)@.stream_recv(id) == Ok::<
                    (TunnelView, Seq<u8>),
                    StreamError,
                >((final(self)@, bytes@)),
                Err(e) => old(self)@.stream_recv(id) == Err::<(TunnelView, Seq<u8>), StreamError>(
                    e,
                ) && final(self)@ == old(self)@,
            },
            old(self)@.wf() ==> final(self)@.wf(),
    {
        if self.failure.is_some() {
            return Err(StreamError::TunnelLost);
        }
        match self.find(id) {
            None => Err(StreamError::UnknownStream),
            Some(i) => {
                let ghost before = self@;
                let stream = self.streams.remove(i);
                let LogicalStream { stream_id, target, state, inbox } = stream;
                self.streams.insert(
                    i,
                    LogicalStream { stream_id, target, state, inbox: Vec::new() },
                );
                assert(self@.streams =~= before.streams.update(
                    i as int,
                    StreamView { inbox: Seq::empty(), ..before.streams[i as int] },
                ));
                Ok(inbox)
            },
        }
    }

    /// Closes a stream from the local side and hands back the `StreamClose`
    /// message to send.
    pub fn close_stream(&mut self, id: u32) -> (closed: Result<Message, StreamError>)
        ensures
            match closed {
                Ok(message) => old(self)@.close_stream(id) == Ok::<
                    (TunnelView, MessageView),
                    StreamError,
                >((final(self)@, message@)),
                Err(e) => old(self)@.close_stream(id) == Err::<
                    (TunnelView, MessageView),
                    StreamError,
                >(e) && final(self)@ == old(self)@,
            },
            old(self)@.wf() ==> final(self)@.wf(),
    {
        if self.failure.is_some() {
            return Err(StreamError::TunnelLost);
        }
        match self.find(id) {
            None => Err(StreamError::UnknownStream),
            Some(i) => {
                let state = self.streams[i].state;
                match state {
                    StreamState::Opening | StreamState::Open => {
                        let stream = self.streams.remove(i);
                        let LogicalStream { stream_id, target, state: _, inbox } = stream;
                        self.streams.insert(
                            i,
                            LogicalStream {
                                stream_id,
                                target,
                                state: StreamState::HalfClosed(Side::Local),
                                inbox,
                            },
                        );
                        assert(self@.streams =~= old(self)@.streams.update(
                            i as int,
                            StreamView {
                                state: StreamState::HalfClosed(Side::Local),
                                ..old(self)@.streams[i as int]
                            },
                        ));
                        Ok(Message::StreamClose { stream_id: id })
                    },
                    StreamState::HalfClosed(Side::Remote) => {
                        let _ = self.take_at(i);
                        Ok(Message::StreamClose { stream_id: id })
                    },
                    _ => Err(StreamError::NotOpen),
                }
            },
        }
    }

    /// Gives the tunnel up because of `error` and hands back the ids of the
    /// streams that went with it.
    pub fn fail(&mut self, error: ChannelError) -> (orphans: Vec<u32>)
        ensures
            (final(self)@, orphans@) == old(self)@.fail(error),
            final(self)@.failure is Some,
            old(self)@.wf() ==> final(self)@.wf(),
    {
        let mut orphans: Vec<u32> = Vec::new();
        if self.failure.is_some() {
            return orphans;
        }
        let mut i: usize = 0;
        while i < self.streams.len()
            invariant
                i <= self.streams@.len(),
                *self == *old(self),
                orphans@ == stream_ids(self@.streams).take(i as int),
            decreases self.streams@.len() - i,
        {
            orphans.push(self.streams[i].stream_id);
            i = i + 1;
            assert(orphans@ =~= stream_ids(self@.streams).take(i as int));
        }
        assert(orphans@ =~= stream_ids(self@.streams));
        self.streams = Vec::new();
        self.failure = Some(error);
        assert(self@.streams =~= Seq::empty());
        orphans
    }
}

impl RelayTunnel {
    /// Replaces the session key by `key` and hands back the `KeyRotate`
    /// message that tells the relay server of it. Nothing changes where the
    /// rotation is refused.
    pub fn rotate_key(&mut self, key: Vec<u8>) -> (rotated: Option<Message>)
        ensures
            match rotated {
                Some(message) => old(self)@.rotate_key(key@) == Some((final(self)@, message@)),
                None => old(self)@.rotate_key(key@) is None && final(self)@ == old(self)@,
            },
            old(self)@.wf() ==> final(self)@.wf(),
    {
        if self.failure.is_some() || key.len() != SESSION_KEY_LEN {
            return None;
        }
        self.keys.symmetric_session_key = crate::keys::copy_bytes(key.as_slice());
        Some(Message::KeyRotate { key })
    }

    /// Sets the state of the stream at place `i`.
    fn set_state(&mut self, i: usize, state: StreamState)
        requires
            i < old(self)@.streams.len(),
        ensures
            final(self)@ == old(self)@.put(
                i as int,
                StreamView { state, ..old(self)@.streams[i as int] },
            ),
    {
        let stream = self.streams.remove(i);
        let LogicalStream { stream_id, target, state: _, inbox } = stream;
        self.streams.insert(i, LogicalStream { stream_id, target, state, inbox });
        assert(self@.streams =~= old(self)@.streams.update(
            i as int,
            StreamView { state, ..old(self)@.streams[i as int] },
        ));
    }

    /// Acts on a `StreamOpened` message.
    fn on_stream_opened(&mut self, id: u32) -> (delivery: Delivery)
        requires
            old(self)@.failure is None,
        ensures
            (final(self)@, delivery@) == old(self)@.on_message(
                MessageView::StreamOpened { stream_id: id },
            ),
            old(self)@.wf() ==> final(self)@.wf(),
    {
        match self.find(id) {
            Some(i) => {
                if self.streams[i].state == StreamState::Opening {
                    proof {
                        lemma_put_keeps_wf(
                            self@,
                            i as int,
                            StreamView { state: StreamState::Open, ..self@.streams[i as int] },
                        );
                    }
                    self.set_state(i, StreamState::Open);
                    Delivery::Opened(id)
                } else {
                    Delivery::Nothing
                }
            },
            None => Delivery::Nothing,
        }
    }

    /// Acts on a `StreamFailed` message.
    fn on_stream_failed(&mut self, id: u32, code: crate::reply::ReplyCode) -> (delivery: Delivery)
        requires
            old(self)@.failure is None,
        ensures
            (final(self)@, delivery@) == old(self)@.on_message(
                MessageView::StreamFailed { stream_id: id, code },
            ),
            old(self)@.wf() ==> final(self)@.wf(),
    {
        match self.find(id) {
            Some(i) => {
                let state = self.streams[i].state;
                proof {
                    lemma_drop_keeps_wf(self@, i as int);
                }
                if state == StreamState::Opening {
                    let _ = self.take_at(i);
                    Delivery::Failed(id, DialError::Refused(code))
                } else if state == StreamState::HalfClosed(Side::Local) {
                    let _ = self.take_at(i);
                    Delivery::Nothing
                } else {
                    Delivery::Nothing
                }
            },
            None => Delivery::Nothing,
        }
    }

    /// Acts on a `StreamData` message.
    fn on_stream_data(&mut self, id: u32, data: Vec<u8>) -> (delivery: Delivery)
        requires
            old(self)@.failure is None,
        ensures
            (final(self)@, delivery@) == old(self)@.on_message(
                MessageView::StreamData { stream_id: id, data: data@ },
            ),
            old(self)@.wf() ==> final(self)@.wf(),
    {
        match self.find(id) {
            Some(i) => {
                if self.streams[i].state == StreamState::Open {
                    proof {
                        lemma_put_keeps_wf(
                            self@,
                            i as int,
                            StreamView {
                                inbox: self@.streams[i as int].inbox + data@,
                                ..self@.streams[i as int]
                            },
                        );
                    }
                    let ghost arrived = data@;
                    let stream = self.streams.remove(i);
                    let LogicalStream { stream_id, target, state, inbox } = stream;
                    let mut inbox = inbox;
                    let mut data = data;
                    inbox.append(&mut data);
                    self.streams.insert(i, LogicalStream { stream_id, target, state, inbox });
                    assert(self@.streams =~= old(self)@.streams.update(
                        i as int,
                        StreamView {
                            inbox: old(self)@.streams[i as int].inbox + arrived,
                            ..old(self)@.streams[i as int]
                        },
                    ));
                    Delivery::Data(id)
                } else {
                    Delivery::Nothing
                }
            },
            None => Delivery::Nothing,
        }
    }

    /// Acts on a `StreamClose` message.
    fn on_stream_close(&mut self, id: u32) -> (delivery: Delivery)
        requires
            old(self)@.failure is None,
        ensures
            (final(self)@, delivery@) == old(self)@.on_message(
                MessageView::StreamClose { stream_id: id },
            ),
            old(self)@.wf() ==> final(self)@.wf(),
    {
        match self.find(id) {
            Some(i) => {
                let state = self.streams[i].state;
                proof {
                    lemma_drop_keeps_wf(self@, i as int);
                    lemma_put_keeps_wf(
                        self@,
                        i as int,
                        StreamView {
                            state: StreamState::HalfClosed(Side::Remote),
                            ..self@.streams[i as int]
                        },
                    );
                }
                if state == StreamState::Opening {
                    let _ = self.take_at(i);
                    Delivery::Failed(id, DialError::Other)
                } else if state == StreamState::Open {
                    self.set_state(i, StreamState::HalfClosed(Side::Remote));
                    Delivery::Closed(id)
                } else if state == StreamState::HalfClosed(Side::Local) {
                    let _ = self.take_at(i);
                    Delivery::Nothing
                } else {
                    Delivery::Nothing
                }
            },
            None => Delivery::Nothing,
        }
    }

    /// Acts on a message from the relay server.
    pub fn on_message(&mut self, message: Message) -> (delivery: Delivery)
        ensures
            (final(self)@, delivery@) == old(self)@.on_message(message@),
            old(self)@.wf() ==> final(self)@.wf(),
    {
        if self.failure.is_some() {
            return Delivery::Nothing;
        }
        match message {
            Message::KeyRotate { key } => {
                if key.len() == SESSION_KEY_LEN {
                    self.keys.symmetric_session_key = key;
                    Delivery::KeyRotated
                } else {
                    Delivery::Nothing
                }
            },
            Message::OpenStream { .. } => Delivery::Nothing,
            Message::StreamOpened { stream_id } => self.on_stream_opened(stream_id),
            Message::StreamFailed { stream_id, code } => self.on_stream_failed(stream_id, code),
            Message::StreamData { stream_id, data } => self.on_stream_data(stream_id, data),
            Message::StreamClose { stream_id } => self.on_stream_close(stream_id),
        }
    }

    /// Takes in a payload from the relay server, opened: it is read as a
    /// message and acted on. A payload that is no message costs the tunnel.
    pub fn receive(&mut self, payload: &[u8]) -> (delivery: Delivery)
        ensures
            (final(self)@, delivery@) == old(self)@.receive(payload@),
            old(self)@.wf() ==> final(self)@.wf(),
    {
        match decode_message(payload) {
            Ok(message) => self.on_message(message),
            Err(e) => {
                if self.failure.is_some() {
                    Delivery::Nothing
                } else {
                    Delivery::Lost(self.fail(e))
                }
            },
        }
    }
}

impl RelayTunnel {
    /// Queues a sealed payload on the control channel as one frame. Refused
    /// on a lost tunnel, and for a payload too long for a length prefix.
    pub fn send_raw(&mut self, sealed: &[u8]) -> (sent: Result<(), ChannelError>)
        ensures
            sent is Ok <==> old(self)@.failure is None && sealed@.len() <= u32::MAX,
            sent is Ok ==> final(self)@ == old(self)@.with_channel(
                FramedChannelView {
                    outbound: old(self)@.channel.outbound + frame_bytes(sealed@),
                    ..old(self)@.channel
                },
            ),
            sent matches Err(e) ==> final(self)@ == old(self)@ && e == match old(self)@.failure {
                Some(failure) => failure,
                None => ChannelError::FrameTooLarge,
            },
    {
        match self.failure {
            Some(failure) => Err(failure),
            None => self.channel.send_raw(sealed),
        }
    }

    /// Takes in bytes that arrived on the control socket.
    pub fn feed(&mut self, bytes: &[u8])
        ensures
            final(self)@ == old(self)@.with_channel(
                FramedChannelView {
                    inbound: old(self)@.channel.inbound + bytes@,
                    ..old(self)@.channel
                },
            ),
    {
        self.channel.receive(bytes);
    }

    /// Reads the next sealed payload from what has arrived, for the driver
    /// to open and hand to `receive`. A frame that is refused costs the
    /// tunnel: the streams that went with it are handed back in the second
    /// place, which is empty otherwise.
    pub fn recv_raw(&mut self) -> (read: (Parsed<Vec<u8>, ChannelError>, Vec<u32>))
        ensures
            read.0@ == spec_decode_frame(old(self)@.channel.inbound, old(self)@.channel.ceiling),
            (final(self)@, read.1@) == match read.0 {
                Parsed::Complete { consumed, .. } => (
                    old(self)@.with_channel(
                        FramedChannelView {
                            inbound: old(self)@.channel.inbound.skip(consumed as int),
                            ..old(self)@.channel
                        },
                    ),
                    Seq::<u32>::empty(),
                ),
                Parsed::Incomplete => (old(self)@, Seq::<u32>::empty()),
                Parsed::Rejected(e) => old(self)@.fail(e),
            },
            old(self)@.wf() ==> final(self)@.wf(),
    {
        let frame = self.channel.recv_raw();
        let orphans = match &frame {
            Parsed::Rejected(e) => self.fail(*e),
            _ => Vec::new(),
        };
        (frame, orphans)
    }

    /// Hands over the bytes queued for the control socket and empties the
    /// queue.
    pub fn take_outbound(&mut self) -> (bytes: Vec<u8>)
        ensures
            bytes@ == old(self)@.channel.outbound,
            final(self)@ == old(self)@.with_channel(
                FramedChannelView { outbound: Seq::empty(), ..old(self)@.channel },
            ),
    {
        self.channel.take_outbound()
    }
}

/// Replacing a stream by one of the same id leaves every other stream
/// where and as it was.
pub proof fn lemma_put_leaves_others(tunnel: TunnelView, i: int, stream: StreamView, other: u32)
    requires
        0 <= i < tunnel.streams.len(),
        stream.stream_id == tunnel.streams[i].stream_id,
        other != stream.stream_id,
    ensures
        tunnel.put(i, stream).stream(other) == tunnel.stream(other),
{
    let before = tunnel.streams;
    let after = tunnel.put(i, stream).streams;
    assert forall|k: int| is_first(after, other, k) <==> is_first(before, other, k) by {
        if is_first(after, other, k) {
            assert forall|j: int| 0 <= j < k implies before[j].stream_id != other by {
                assert(after[j].stream_id != other);
            }
        }
        if is_first(before, other, k) {
            assert forall|j: int| 0 <= j < k implies after[j].stream_id != other by {
                assert(before[j].stream_id != other);
            }
        }
    }
    match position(before, other) {
        Some(k) => {
            assert(is_first(before, other, k));
            assert(is_first(after, other, k));
            lemma_position_is_first(after, other, k);
        },
        None => {
            if exists|k: int| is_first(after, other, k) {
                let k = choose|k: int| is_first(after, other, k);
                assert(is_first(before, other, k));
            }
        },
    }
}

/// Letting go of a stream leaves every other stream as it was.
pub proof fn lemma_drop_leaves_others(tunnel: TunnelView, i: int, other: u32)
    requires
        0 <= i < tunnel.streams.len(),
        other != tunnel.streams[i].stream_id,
    ensures
        tunnel.drop_at(i).stream(other) == tunnel.stream(other),
{
    let before = tunnel.streams;
    let after = tunnel.drop_at(i).streams;
    match position(before, other) {
        Some(k) => {
            assert(is_first(before, other, k));
            let k2 = if k < i { k } else { k - 1 };
            assert forall|j: int| 0 <= j < k2 implies after[j].stream_id != other by {
                let j0 = if j < i { j } else { j + 1 };
                assert(before[j0].stream_id != other);
            }
            assert(is_first(after, other, k2));
            lemma_position_is_first(after, other, k2);
        },
        None => {
            if exists|k: int| is_first(after, other, k) {
                let k = choose|k: int| is_first(after, other, k);
                let k0 = if k < i { k } else { k + 1 };
                assert(before[k0].stream_id == other);
                assert forall|j: int| 0 <= j < k0 implies before[j].stream_id != other by {
                    if j != i {
                        let j2 = if j < i { j } else { j - 1 };
                        assert(after[j2].stream_id != other);
                    }
                }
                assert(is_first(before, other, k0));
            }
        },
    }
}

/// No cross-talk: a message from the relay server acts on the stream it
/// names and leaves every other stream of the tunnel as it was. What comes
/// for one session never reaches another.
pub proof fn lemma_no_cross_talk(tunnel: TunnelView, message: MessageView, other: u32)
    requires
        other != message.stream_id(),
    ensures
        tunnel.on_message(message).0.stream(other) == tunnel.stream(other),
{
    if tunnel.failure is None {
        match message {
            MessageView::KeyRotate { .. } => {},
            MessageView::OpenStream { .. } => {},
            _ => {
                match position(tunnel.streams, message.stream_id()) {
                    Some(i) => {
                        assert(is_first(tunnel.streams, message.stream_id(), i));
                        let after = tunnel.deliver_to(i, message).0;
                        if after != tunnel {
                            if after.streams.len() == tunnel.streams.len() {
                                lemma_put_leaves_others(tunnel, i, after.streams[i], other);
                                assert(after.streams =~= tunnel.streams.update(i, after.streams[i]));
                            } else {
                                lemma_drop_leaves_others(tunnel, i, other);
                            }
                        }
                    },
                    None => {},
                }
            },
        }
    }
}

/// Bytes keep their order: what comes for an open stream in two messages
/// lies in its inbox as the first followed by the second, behind what was
/// there, and is fetched in that order.
pub proof fn lemma_data_keeps_order(tunnel: TunnelView, id: u32, first: Seq<u8>, second: Seq<u8>)
    requires
        tunnel.failure is None,
        tunnel.stream(id) matches Some(stream) && stream.state == StreamState::Open,
    ensures
        ({
            let once = tunnel.on_message(MessageView::StreamData { stream_id: id, data: first }).0;
            let twice = once.on_message(MessageView::StreamData { stream_id: id, data: second }).0;
            &&& twice.stream(id) matches Some(stream)
            &&& stream.inbox == tunnel.stream(id).unwrap().inbox + first + second
            &&& twice.stream_recv(id) matches Ok(fetched)
            &&& fetched.1 == tunnel.stream(id).unwrap().inbox + first + second
        }),
{
    let i = position(tunnel.streams, id).unwrap();
    assert(is_first(tunnel.streams, id, i));
    let once = tunnel.on_message(MessageView::StreamData { stream_id: id, data: first }).0;
    assert(is_first(once.streams, id, i)) by {
        assert forall|j: int| 0 <= j < i implies once.streams[j].stream_id != id by {
            assert(tunnel.streams[j].stream_id != id);
        }
    }
    lemma_position_is_first(once.streams, id, i);
    let twice = once.on_message(MessageView::StreamData { stream_id: id, data: second }).0;
    assert(is_first(twice.streams, id, i)) by {
        assert forall|j: int| 0 <= j < i implies twice.streams[j].stream_id != id by {
            assert(once.streams[j].stream_id != id);
        }
    }
    lemma_position_is_first(twice.streams, id, i);
    assert(twice.streams[i].inbox =~= tunnel.streams[i].inbox + first + second);
}

/// Ids are never used twice: the id a new stream gets is held by no stream
/// of the tunnel, was never handed out before, and names the new stream
/// afterwards; every id that was handed out before stays spoken for.
pub proof fn lemma_new_stream_gets_fresh_id(tunnel: TunnelView, target: EndpointView)
    requires
        tunnel.wf(),
        tunnel.open_stream(target) is Ok,
    ensures
        ({
            let (after, message) = tunnel.open_stream(target)->Ok_0;
            let id = message.stream_id();
            &&& id == tunnel.next_id
            &&& tunnel.stream_state(id) is None
            &&& after.stream_state(id) == Some(StreamState::Opening)
            &&& after.stream(id).unwrap().target == target
            &&& after.wf()
            &&& forall|old_id: u32| tunnel.stream_state(old_id) is Some ==> old_id < id
        }),
{
    let (after, message) = tunnel.open_stream(target)->Ok_0;
    let id = tunnel.next_id;
    assert forall|j: int| 0 <= j < tunnel.streams.len() implies tunnel.streams[j].stream_id
        != id by {
        assert(tunnel.streams[j].stream_id < tunnel.next_id);
    }
    lemma_position_of_absent(tunnel.streams, id);
    let n = tunnel.streams.len() as int;
    assert(is_first(after.streams, id, n)) by {
        assert forall|j: int| 0 <= j < n implies after.streams[j].stream_id != id by {
            assert(after.streams[j] == tunnel.streams[j]);
        }
    }
    lemma_position_is_first(after.streams, id, n);
    assert forall|a: int, b: int| 0 <= a < b < after.streams.len() implies (
    #[trigger] after.streams[a]).stream_id < (#[trigger] after.streams[b]).stream_id by {
        if b < n {
            assert(tunnel.streams[a].stream_id < tunnel.streams[b].stream_id);
        } else {
            assert(tunnel.streams[a].stream_id < tunnel.next_id);
        }
    }
    assert forall|a: int| 0 <= a < after.streams.len() implies 1 <= (
    #[trigger] after.streams[a]).stream_id < after.next_id && after.streams[a].state
        != StreamState::Closed by {
        if a < n {
            assert(1 <= tunnel.streams[a].stream_id < tunnel.next_id);
            assert(tunnel.streams[a].state != StreamState::Closed);
        }
    }
    assert forall|old_id: u32| tunnel.stream_state(old_id) is Some implies old_id < id by {
        if tunnel.stream(old_id) is Some {
            let k = position(tunnel.streams, old_id).unwrap();
            assert(is_first(tunnel.streams, old_id, k));
            assert(tunnel.streams[k].stream_id < tunnel.next_id);
        }
    }
}

/// A lost tunnel carries nothing: it holds no stream, opens none, and every
/// use of a stream is answered with `TunnelLost`; whatever the relay server
/// still sends changes nothing.
pub proof fn lemma_lost_tunnel_carries_nothing(
    tunnel: TunnelView,
    error: ChannelError,
    target: EndpointView,
    id: u32,
    data: Seq<u8>,
    message: MessageView,
)
    requires
        tunnel.wf(),
    ensures
        ({
            let lost = tunnel.fail(error).0;
            &&& lost.failure is Some
            &&& lost.streams.len() == 0
            &&& tunnel.failure is None ==> lost.failure == Some(error) && tunnel.fail(error).1
                == stream_ids(tunnel.streams)
            &&& lost.open_stream(target) == Err::<(TunnelView, MessageView), DialError>(
                DialError::TunnelLost,
            )
            &&& lost.stream_send(id, data) == Err::<MessageView, StreamError>(
                StreamError::TunnelLost,
            )
            &&& lost.stream_recv(id) is Err
            &&& lost.close_stream(id) is Err
            &&& lost.rotate_key(data) is None
            &&& lost.on_message(message) == (lost, DeliveryView::Nothing)
        }),
{
}

} // verus!
