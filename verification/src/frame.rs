//! The framed channel: opaque blocks of bytes, each behind a four byte
//! big-endian length.
//!
//! The channel owns no socket. What arrives on the control socket is handed
//! to it, and what it queues is written to the socket by its driver.

use vstd::prelude::*;
use crate::error::ChannelError;
use crate::parsed::Parsed;
use crate::wire::{be32, be32_bytes, lemma_be32_of_bytes, read_be32, write_be32};

verus! {

/// The number of bytes in a length prefix.
pub const FRAME_HEADER_LEN: usize = 4;

/// A frame on the wire: the length of the payload, then the payload.
pub open spec fn frame_bytes(payload: Seq<u8>) -> Seq<u8>
    recommends
        payload.len() <= u32::MAX,
{
    be32_bytes(payload.len() as u32) + payload
}

/// How a frame is read from the front of `input`. A frame that announces
/// more than `ceiling` bytes is refused as soon as its length is known; a
/// length of zero is a frame with an empty payload.
pub open spec fn spec_decode_frame(input: Seq<u8>, ceiling: u32) -> Parsed<Seq<u8>, ChannelError> {
    if input.len() < 4 {
        Parsed::Incomplete
    } else {
        let length = be32(input[0], input[1], input[2], input[3]);
        if length > ceiling {
            Parsed::Rejected(ChannelError::FrameTooLarge)
        } else if input.len() < 4 + length {
            Parsed::Incomplete
        } else {
            Parsed::Complete { value: input.subrange(4, 4 + length), consumed: (4 + length) as usize }
        }
    }
}

/// Puts `payload` behind its length. A payload whose length does not fit in
/// the four bytes of the prefix is refused.
pub fn encode_frame(payload: &[u8]) -> (frame: Result<Vec<u8>, ChannelError>)
    ensures
        frame is Ok <==> payload@.len() <= u32::MAX,
        frame matches Ok(bytes) ==> bytes@ == frame_bytes(payload@),
        frame matches Err(e) ==> e == ChannelError::FrameTooLarge,
{
    if payload.len() > 0xFFFF_FFFF {
        return Err(ChannelError::FrameTooLarge);
    }
    let mut bytes: Vec<u8> = Vec::new();
    write_be32(&mut bytes, payload.len() as u32);
    let mut i: usize = 0;
    while i < payload.len()
        invariant
            i <= payload@.len(),
            payload@.len() <= u32::MAX,
            bytes@ == be32_bytes(payload@.len() as u32) + payload@.take(i as int),
        decreases payload@.len() - i,
    {
        bytes.push(payload[i]);
        i = i + 1;
        assert(payload@.take(i as int) =~= payload@.take(i - 1).push(payload@[i - 1]));
    }
    assert(payload@.take(i as int) =~= payload@);
    Ok(bytes)
}

/// Reads one frame from the front of `input`.
pub fn decode_frame(input: &[u8], ceiling: u32) -> (parsed: Parsed<Vec<u8>, ChannelError>)
    ensures
        parsed@ == spec_decode_frame(input@, ceiling),
{
    if input.len() < 4 {
        return Parsed::Incomplete;
    }
    let length: u32 = read_be32(input[0], input[1], input[2], input[3]);
    if length > ceiling {
        return Parsed::Rejected(ChannelError::FrameTooLarge);
    }
    if input.len() - 4 < length as usize {
        return Parsed::Incomplete;
    }
    let count: usize = length as usize;
    let mut payload: Vec<u8> = Vec::new();
    let mut i: usize = 0;
    while i < count
        invariant
            i <= count,
            4 + count <= input.len(),
            payload@ == input@.subrange(4, 4 + i),
        decreases count - i,
    {
        payload.push(input[4 + i]);
        i = i + 1;
        assert(payload@ =~= input@.subrange(4, 4 + i));
    }
    Parsed::Complete { value: payload, consumed: 4 + count }
}

/// A frame, whatever follows it, is read back as its payload and as nothing
/// more, if the payload is no longer than the ceiling; a longer one is
/// refused.
pub proof fn lemma_frame_roundtrip(payload: Seq<u8>, rest: Seq<u8>, ceiling: u32)
    requires
        payload.len() <= u32::MAX,
    ensures
        payload.len() <= ceiling ==> spec_decode_frame(frame_bytes(payload) + rest, ceiling) == (
        Parsed::<Seq<u8>, ChannelError>::Complete {
            value: payload,
            consumed: (4 + payload.len()) as usize,
        }),
        payload.len() > ceiling ==> spec_decode_frame(frame_bytes(payload) + rest, ceiling)
            == Parsed::<Seq<u8>, ChannelError>::Rejected(ChannelError::FrameTooLarge),
{
    let input = frame_bytes(payload) + rest;
    lemma_be32_of_bytes(payload.len() as u32);
    let header = be32_bytes(payload.len() as u32);
    assert(input[0] == header[0] && input[1] == header[1] && input[2] == header[2] && input[3]
        == header[3]);
    if payload.len() <= ceiling {
        assert(input.subrange(4, 4 + payload.len() as int) =~= payload);
    }
}

/// A frame of which a byte is still missing is not read yet, and nothing
/// is ever read from fewer than four bytes.
pub proof fn lemma_partial_frame_is_incomplete(payload: Seq<u8>, n: int, ceiling: u32)
    requires
        payload.len() <= ceiling,
        0 <= n < 4 + payload.len(),
    ensures
        spec_decode_frame(frame_bytes(payload).take(n), ceiling) is Incomplete,
{
    let input = frame_bytes(payload).take(n);
    lemma_be32_of_bytes(payload.len() as u32);
    let header = be32_bytes(payload.len() as u32);
    if n >= 4 {
        assert(input[0] == header[0] && input[1] == header[1] && input[2] == header[2] && input[3]
            == header[3]);
    }
}

/// The control channel's two byte queues and the ceiling it holds inbound
/// frames to.
pub struct FramedChannel {
    inbound: Vec<u8>,
    outbound: Vec<u8>,
    ceiling: u32,
}

/// A [`FramedChannel`] as a mathematical value.
pub struct FramedChannelView {
    /// Bytes that arrived on the socket and belong to no frame read so far.
    pub inbound: Seq<u8>,
    /// Bytes queued for the socket.
    pub outbound: Seq<u8>,
    /// The longest payload an inbound frame may announce.
    pub ceiling: u32,
}

impl View for FramedChannel {
    type V = FramedChannelView;

    closed spec fn view(&self) -> FramedChannelView {
        FramedChannelView {
            inbound: self.inbound@,
            outbound: self.outbound@,
            ceiling: self.ceiling,
        }
    }
}

impl FramedChannel {
    /// A channel on which nothing has happened, which refuses inbound
    /// frames of more than `ceiling` bytes.
    pub fn new(ceiling: u32) -> (channel: FramedChannel)
        ensures
            channel@ == (FramedChannelView {
                inbound: Seq::empty(),
                outbound: Seq::empty(),
                ceiling,
            }),
    {
        FramedChannel { inbound: Vec::new(), outbound: Vec::new(), ceiling }
    }

    /// The longest payload an inbound frame may announce.
    pub fn ceiling(&self) -> (ceiling: u32)
        ensures
            ceiling == self@.ceiling,
    {
        self.ceiling
    }

    /// Queues `payload` as one frame. Nothing is queued where the payload is
    /// too long for a length prefix.
    pub fn send_raw(&mut self, payload: &[u8]) -> (sent: Result<(), ChannelError>)
        ensures
            sent is Ok <==> payload@.len() <= u32::MAX,
            sent is Ok ==> final(self)@ == (FramedChannelView {
                outbound: old(self)@.outbound + frame_bytes(payload@),
                ..old(self)@
            }),
            sent is Err ==> sent == Err::<(), ChannelError>(ChannelError::FrameTooLarge)
                && final(self)@ == old(self)@,
    {
        match encode_frame(payload) {
            Ok(frame) => {
                let mut frame = frame;
                self.outbound.append(&mut frame);
                Ok(())
            },
            Err(e) => Err(e),
        }
    }

    /// Takes in bytes that arrived on the control socket.
    pub fn receive(&mut self, bytes: &[u8])
        ensures
            final(self)@ == (FramedChannelView {
                inbound: old(self)@.inbound + bytes@,
                ..old(self)@
            }),
    {
        let mut i: usize = 0;
        while i < bytes.len()
            invariant
                i <= bytes@.len(),
                self.inbound@ == old(self).inbound@ + bytes@.take(i as int),
                self.outbound == old(self).outbound,
                self.ceiling == old(self).ceiling,
            decreases bytes@.len() - i,
        {
            self.inbound.push(bytes[i]);
            i = i + 1;
            assert(bytes@.take(i as int) =~= bytes@.take(i - 1).push(bytes@[i - 1]));
        }
        assert(bytes@.take(i as int) =~= bytes@);
    }

    /// Reads the next frame from what has arrived. A whole frame is taken
    /// out of the queue; where none is whole yet, or the next one is refused,
    /// the queue stays as it is.
    pub fn recv_raw(&mut self) -> (frame: Parsed<Vec<u8>, ChannelError>)
        ensures
            frame@ == spec_decode_frame(old(self)@.inbound, old(self)@.ceiling),
            final(self)@ == (FramedChannelView {
                inbound: match frame {
                    Parsed::Complete { consumed, .. } => old(self)@.inbound.skip(consumed as int),
                    _ => old(self)@.inbound,
                },
                ..old(self)@
            }),
    {
        let frame = decode_frame(self.inbound.as_slice(), self.ceiling);
        match &frame {
            Parsed::Complete { value: _, consumed } => {
                let rest = self.inbound.split_off(*consumed);
                self.inbound = rest;
            },
            _ => {},
        }
        frame
    }

    /// Hands over the bytes queued for the socket and empties the queue.
    pub fn take_outbound(&mut self) -> (bytes: Vec<u8>)
        ensures
            bytes@ == old(self)@.outbound,
            final(self)@ == (FramedChannelView { outbound: Seq::empty(), ..old(self)@ }),
    {
        let mut bytes: Vec<u8> = Vec::new();
        bytes.append(&mut self.outbound);
        bytes
    }
}

} // verus!
