//! The messages of an established tunnel, and how they lie in a frame's
//! payload before it is sealed: one byte for the kind, four for the stream
//! the message belongs to, then the body.

use vstd::prelude::*;
use crate::address::{lemma_encode_then_parse, parse_address, spec_parse_address, IpAddress};
use crate::consts::ATYPE_DOMAIN;
use crate::error::ChannelError;
use crate::keys::SESSION_KEY_LEN;
use crate::parsed::Parsed;
use crate::reply::{lemma_reply_code_bytes, ReplyCode};
use crate::wire::{
    be16, be16_bytes, be32, be32_bytes, lemma_be16_of_bytes, lemma_be32_of_bytes,
    lemma_bytes_of_be16, lemma_bytes_of_be32, read_be16, read_be32, write_be16, write_be32,
};

verus! {

/// Kind bytes of the messages.
pub const KIND_OPEN_STREAM: u8 = 0x01;

pub const KIND_STREAM_OPENED: u8 = 0x02;

pub const KIND_STREAM_FAILED: u8 = 0x03;

pub const KIND_STREAM_DATA: u8 = 0x04;

pub const KIND_STREAM_CLOSE: u8 = 0x05;

pub const KIND_KEY_ROTATE: u8 = 0x06;

/// The number of bytes before the body: the kind and the stream id.
pub const ENVELOPE_HEADER_LEN: usize = 5;

/// What travels through an established tunnel.
#[derive(Debug, PartialEq, Eq)]
pub enum Message {
    /// Connect this stream to the endpoint.
    OpenStream { stream_id: u32, ip: IpAddress, port: u16 },
    /// The stream is connected.
    StreamOpened { stream_id: u32 },
    /// The stream could not be connected, for the reason the code gives.
    StreamFailed { stream_id: u32, code: ReplyCode },
    /// Bytes of the stream, in the order they were sent.
    StreamData { stream_id: u32, data: Vec<u8> },
    /// No more bytes will come on this stream from the sender.
    StreamClose { stream_id: u32 },
    /// From now on traffic is sealed under this key.
    KeyRotate { key: Vec<u8> },
}

/// A [`Message`] as a mathematical value.
pub enum MessageView {
    OpenStream { stream_id: u32, ip: IpAddress, port: u16 },
    StreamOpened { stream_id: u32 },
    StreamFailed { stream_id: u32, code: ReplyCode },
    StreamData { stream_id: u32, data: Seq<u8> },
    StreamClose { stream_id: u32 },
    KeyRotate { key: Seq<u8> },
}

impl View for Message {
    type V = MessageView;

    open spec fn view(&self) -> MessageView {
        match *self {
            Message::OpenStream { stream_id, ip, port } => MessageView::OpenStream {
                stream_id,
                ip,
                port,
            },
            Message::StreamOpened { stream_id } => MessageView::StreamOpened { stream_id },
            Message::StreamFailed { stream_id, code } => MessageView::StreamFailed {
                stream_id,
                code,
            },
            Message::StreamData { stream_id, data } => MessageView::StreamData {
                stream_id,
                data: data@,
            },
            Message::StreamClose { stream_id } => MessageView::StreamClose { stream_id },
            Message::KeyRotate { key } => MessageView::KeyRotate { key: key@ },
        }
    }
}

impl MessageView {
    /// A message that can be sent: a new key has the length of a key.
    pub open spec fn wf(self) -> bool {
        self matches MessageView::KeyRotate { key } ==> key.len() == SESSION_KEY_LEN
    }

    /// The byte that announces the kind of the message.
    pub open spec fn kind(self) -> u8 {
        match self {
            MessageView::OpenStream { .. } => KIND_OPEN_STREAM,
            MessageView::StreamOpened { .. } => KIND_STREAM_OPENED,
            MessageView::StreamFailed { .. } => KIND_STREAM_FAILED,
            MessageView::StreamData { .. } => KIND_STREAM_DATA,
            MessageView::StreamClose { .. } => KIND_STREAM_CLOSE,
            MessageView::KeyRotate { .. } => KIND_KEY_ROTATE,
        }
    }

    /// The stream the message belongs to. A key rotation belongs to the
    /// tunnel as a whole and travels under stream id zero.
    pub open spec fn stream_id(self) -> u32 {
        match self {
            MessageView::OpenStream { stream_id, .. } => stream_id,
            MessageView::StreamOpened { stream_id } => stream_id,
            MessageView::StreamFailed { stream_id, .. } => stream_id,
            MessageView::StreamData { stream_id, .. } => stream_id,
            MessageView::StreamClose { stream_id } => stream_id,
            MessageView::KeyRotate { .. } => 0,
        }
    }

    /// What follows kind and stream id.
    pub open spec fn body(self) -> Seq<u8> {
        match self {
            MessageView::OpenStream { ip, port, .. } => seq![ip.wire_type()] + ip.wire_bytes()
                + be16_bytes(port),
            MessageView::StreamOpened { .. } => Seq::empty(),
            MessageView::StreamFailed { code, .. } => seq![code.wire_byte()],
            MessageView::StreamData { data, .. } => data,
            MessageView::StreamClose { .. } => Seq::empty(),
            MessageView::KeyRotate { key } => key,
        }
    }

    /// The message as the payload of a frame, before it is sealed.
    pub open spec fn encode(self) -> Seq<u8> {
        seq![self.kind()] + be32_bytes(self.stream_id()) + self.body()
    }
}

/// How the body of an `OpenStream` message is read: an address type that is
/// IPv4 or IPv6, the address, the port, and nothing after it.
pub open spec fn spec_decode_open_body(stream_id: u32, body: Seq<u8>) -> Result<
    MessageView,
    ChannelError,
> {
    if body.len() < 1 || body[0] == ATYPE_DOMAIN {
        Err(ChannelError::MalformedMessage)
    } else {
        match spec_parse_address(body[0], body.skip(1)) {
            Parsed::Complete { value, consumed } => if body.len() == 1 + consumed + 2 {
                match value.ip() {
                    Some(ip) => Ok(
                        MessageView::OpenStream {
                            stream_id,
                            ip,
                            port: be16(body[1 + consumed], body[1 + consumed + 1]),
                        },
                    ),
                    None => Err(ChannelError::MalformedMessage),
                }
            } else {
                Err(ChannelError::MalformedMessage)
            },
            _ => Err(ChannelError::MalformedMessage),
        }
    }
}

/// How a payload is read as a message. Each message has one encoding only:
/// a body that is too short or too long for its kind, a kind that is not
/// known, a code that is none, or a key rotation under a stream id other
/// than zero makes the payload malformed.
pub open spec fn spec_decode_message(payload: Seq<u8>) -> Result<MessageView, ChannelError> {
    if payload.len() < 5 {
        Err(ChannelError::MalformedMessage)
    } else {
        let kind = payload[0];
        let stream_id = be32(payload[1], payload[2], payload[3], payload[4]);
        let body = payload.skip(5);
        if kind == KIND_OPEN_STREAM {
            spec_decode_open_body(stream_id, body)
        } else if kind == KIND_STREAM_OPENED {
            if body.len() == 0 {
                Ok(MessageView::StreamOpened { stream_id })
            } else {
                Err(ChannelError::MalformedMessage)
            }
        } else if kind == KIND_STREAM_FAILED {
            if body.len() == 1 {
                match ReplyCode::of_wire_byte(body[0]) {
                    Some(code) => Ok(MessageView::StreamFailed { stream_id, code }),
                    None => Err(ChannelError::MalformedMessage),
                }
            } else {
                Err(ChannelError::MalformedMessage)
            }
        } else if kind == KIND_STREAM_DATA {
            Ok(MessageView::StreamData { stream_id, data: body })
        } else if kind == KIND_STREAM_CLOSE {
            if body.len() == 0 {
                Ok(MessageView::StreamClose { stream_id })
            } else {
                Err(ChannelError::MalformedMessage)
            }
        } else if kind == KIND_KEY_ROTATE {
            if stream_id == 0 && body.len() == SESSION_KEY_LEN {
                Ok(MessageView::KeyRotate { key: body })
            } else {
                Err(ChannelError::MalformedMessage)
            }
        } else {
            Err(ChannelError::MalformedMessage)
        }
    }
}

/// Appends `bytes` to `out`.
fn append_bytes(out: &mut Vec<u8>, bytes: &[u8])
    ensures
        final(out)@ == old(out)@ + bytes@,
{
    let mut i: usize = 0;
    while i < bytes.len()
        invariant
            i <= bytes@.len(),
            out@ == old(out)@ + bytes@.take(i as int),
        decreases bytes@.len() - i,
    {
        out.push(bytes[i]);
        i = i + 1;
        assert(bytes@.take(i as int) =~= bytes@.take(i - 1).push(bytes@[i - 1]));
    }
    assert(bytes@.take(i as int) =~= bytes@);
}

/// The payload that carries `message`.
pub fn encode_message(message: &Message) -> (payload: Vec<u8>)
    ensures
        payload@ == message@.encode(),
{
    let mut out: Vec<u8> = Vec::new();
    match message {
        Message::OpenStream { stream_id, ip, port } => {
            out.push(KIND_OPEN_STREAM);
            write_be32(&mut out, *stream_id);
            out.push(ip.atype());
            let addr = ip.to_bytes();
            append_bytes(&mut out, addr.as_slice());
            write_be16(&mut out, *port);
        },
        Message::StreamOpened { stream_id } => {
            out.push(KIND_STREAM_OPENED);
            write_be32(&mut out, *stream_id);
        },
        Message::StreamFailed { stream_id, code } => {
            out.push(KIND_STREAM_FAILED);
            write_be32(&mut out, *stream_id);
            out.push(code.to_byte());
        },
        Message::StreamData { stream_id, data } => {
            out.push(KIND_STREAM_DATA);
            write_be32(&mut out, *stream_id);
            append_bytes(&mut out, data.as_slice());
        },
        Message::StreamClose { stream_id } => {
            out.push(KIND_STREAM_CLOSE);
            write_be32(&mut out, *stream_id);
        },
        Message::KeyRotate { key } => {
            out.push(KIND_KEY_ROTATE);
            write_be32(&mut out, 0);
            append_bytes(&mut out, key.as_slice());
        },
    }
    assert(out@ =~= message@.encode());
    out
}

/// Reads the body of an `OpenStream` message.
fn decode_open_body(stream_id: u32, body: &[u8]) -> (message: Result<Message, ChannelError>)
    ensures
        match message {
            Ok(m) => spec_decode_open_body(stream_id, body@) == Ok::<MessageView, ChannelError>(m@),
            Err(e) => spec_decode_open_body(stream_id, body@) == Err::<MessageView, ChannelError>(
                e,
            ),
        },
{
    if body.len() < 1 || body[0] == ATYPE_DOMAIN {
        return Err(ChannelError::MalformedMessage);
    }
    let rest = vstd::slice::slice_subrange(body, 1, body.len());
    assert(rest@ =~= body@.skip(1));
    match parse_address(body[0], rest) {
        Parsed::Complete { value, consumed } => {
            if body.len() - 1 < consumed || body.len() - 1 - consumed != 2 {
                return Err(ChannelError::MalformedMessage);
            }
            match value.ip() {
                Some(ip) => {
                    let port: u16 = read_be16(body[1 + consumed], body[1 + consumed + 1]);
                    Ok(Message::OpenStream { stream_id, ip, port })
                },
                None => Err(ChannelError::MalformedMessage),
            }
        },
        _ => Err(ChannelError::MalformedMessage),
    }
}

/// Reads `payload` as a message.
pub fn decode_message(payload: &[u8]) -> (message: Result<Message, ChannelError>)
    ensures
        match message {
            Ok(m) => spec_decode_message(payload@) == Ok::<MessageView, ChannelError>(m@),
            Err(e) => spec_decode_message(payload@) == Err::<MessageView, ChannelError>(e),
        },
        message matches Ok(m) ==> m@.wf(),
{
    if payload.len() < 5 {
        return Err(ChannelError::MalformedMessage);
    }
    let kind: u8 = payload[0];
    let stream_id: u32 = read_be32(payload[1], payload[2], payload[3], payload[4]);
    let body = vstd::slice::slice_subrange(payload, 5, payload.len());
    assert(body@ =~= payload@.skip(5));
    if kind == KIND_OPEN_STREAM {
        decode_open_body(stream_id, body)
    } else if kind == KIND_STREAM_OPENED {
        if body.len() == 0 {
            Ok(Message::StreamOpened { stream_id })
        } else {
            Err(ChannelError::MalformedMessage)
        }
    } else if kind == KIND_STREAM_FAILED {
        if body.len() == 1 {
            match ReplyCode::from_byte(body[0]) {
                Some(code) => Ok(Message::StreamFailed { stream_id, code }),
                None => Err(ChannelError::MalformedMessage),
            }
        } else {
            Err(ChannelError::MalformedMessage)
        }
    } else if kind == KIND_STREAM_DATA {
        let mut data: Vec<u8> = Vec::new();
        append_bytes(&mut data, body);
        assert(data@ =~= body@);
        Ok(Message::StreamData { stream_id, data })
    } else if kind == KIND_STREAM_CLOSE {
        if body.len() == 0 {
            Ok(Message::StreamClose { stream_id })
        } else {
            Err(ChannelError::MalformedMessage)
        }
    } else if kind == KIND_KEY_ROTATE {
        if stream_id == 0 && body.len() == SESSION_KEY_LEN {
            let mut key: Vec<u8> = Vec::new();
            append_bytes(&mut key, body);
            assert(key@ =~= body@);
            Ok(Message::KeyRotate { key })
        } else {
            Err(ChannelError::MalformedMessage)
        }
    } else {
        Err(ChannelError::MalformedMessage)
    }
}

/// Every message that can be sent is read back, from its own encoding, as
/// itself.
pub proof fn lemma_message_roundtrip(message: MessageView)
    requires
        message.wf(),
    ensures
        spec_decode_message(message.encode()) == Ok::<MessageView, ChannelError>(message),
{
    let payload = message.encode();
    let id_bytes = be32_bytes(message.stream_id());
    lemma_be32_of_bytes(message.stream_id());
    assert(payload[0] == message.kind());
    assert(payload[1] == id_bytes[0] && payload[2] == id_bytes[1] && payload[3] == id_bytes[2]
        && payload[4] == id_bytes[3]);
    let body = payload.skip(5);
    assert(body =~= message.body());
    match message {
        MessageView::OpenStream { stream_id, ip, port } => {
            let tail = be16_bytes(port);
            lemma_be16_of_bytes(port);
            lemma_encode_then_parse(ip, tail);
            let n = ip.wire_bytes().len() as int;
            assert(body.skip(1) =~= ip.wire_bytes() + tail);
            assert(body[0] == ip.wire_type());
            assert(body[1 + n] == tail[0] && body[1 + n + 1] == tail[1]);
        },
        MessageView::StreamFailed { stream_id, code } => {
            lemma_reply_code_bytes(code, 0);
        },
        _ => {},
    }
}

/// A payload is the encoding of the message it is read as, and of no other:
/// two payloads that differ are never read as the same message.
pub proof fn lemma_message_encoding_is_unique(payload: Seq<u8>)
    requires
        spec_decode_message(payload) is Ok,
    ensures
        spec_decode_message(payload)->Ok_0.wf(),
        spec_decode_message(payload)->Ok_0.encode() == payload,
{
    let message = spec_decode_message(payload)->Ok_0;
    let stream_id = be32(payload[1], payload[2], payload[3], payload[4]);
    lemma_bytes_of_be32(payload[1], payload[2], payload[3], payload[4]);
    let body = payload.skip(5);
    let head = seq![payload[0]] + be32_bytes(stream_id);
    assert(head =~= payload.take(5));
    assert(payload =~= payload.take(5) + body);
    if payload[0] == KIND_OPEN_STREAM {
        let parsed = spec_parse_address(body[0], body.skip(1));
        let consumed = parsed->consumed as int;
        crate::address::lemma_parse_then_encode(body[0], body.skip(1));
        lemma_bytes_of_be16(body[1 + consumed], body[1 + consumed + 1]);
        let ip = parsed->value.ip().unwrap();
        assert(message.body() =~= body);
    } else if payload[0] == KIND_STREAM_FAILED {
        lemma_reply_code_bytes(ReplyCode::Success, body[0]);
        assert(message.body() =~= body);
    } else {
        assert(message.body() =~= body);
    }
}

} // verus!
