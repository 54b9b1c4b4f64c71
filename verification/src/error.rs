//! What can go wrong in a session or on a tunnel, and what the client is told.

use vstd::prelude::*;
use crate::reply::ReplyCode;

verus! {

/// The classes of failure. A failure ends the narrowest unit it belongs to:
/// one session or one tunnel, never the process.
#[derive(Clone, Copy, Debug, PartialEq, Eq, Structural)]
pub enum ErrorKind {
    /// Malformed SOCKS bytes.
    ProtocolError,
    /// A command, address type or set of methods this proxy does not offer.
    UnsupportedFeature,
    /// The target could not be reached.
    DialError,
    /// The relay server did not prove its identity.
    HandshakeFailed,
    /// I/O or decryption failed on an established tunnel.
    ChannelError,
}

/// Why no byte stream to the target could be had.
#[derive(Clone, Copy, Debug, PartialEq, Eq, Structural)]
pub enum DialError {
    /// The name lookup failed or returned nothing.
    ResolutionFailed,
    HostUnreachable,
    NetworkUnreachable,
    ConnectionRefused,
    /// The tunnel went down while the stream was being opened.
    TunnelLost,
    /// The tunnel has as many streams in flight as it allows.
    TooManyStreams,
    /// The relay server refused, with this code.
    Refused(ReplyCode),
    /// Anything else, a timeout included.
    Other,
}

impl DialError {
    /// The reply code closest to this failure. A refusal by the relay keeps
    /// the relay's code, unless that code claims success.
    pub open spec fn spec_reply_code(self) -> ReplyCode {
        match self {
            DialError::ResolutionFailed => ReplyCode::HostUnreachable,
            DialError::HostUnreachable => ReplyCode::HostUnreachable,
            DialError::NetworkUnreachable => ReplyCode::NetworkUnreachable,
            DialError::ConnectionRefused => ReplyCode::ConnectionRefused,
            DialError::TunnelLost => ReplyCode::GeneralFailure,
            DialError::TooManyStreams => ReplyCode::GeneralFailure,
            DialError::Refused(code) => if code == ReplyCode::Success {
                ReplyCode::GeneralFailure
            } else {
                code
            },
            DialError::Other => ReplyCode::GeneralFailure,
        }
    }

    /// The reply code closest to this failure; never `Success`.
    pub fn reply_code(self) -> (code: ReplyCode)
        ensures
            code == self.spec_reply_code(),
            code != ReplyCode::Success,
    {
        match self {
            DialError::ResolutionFailed => ReplyCode::HostUnreachable,
            DialError::HostUnreachable => ReplyCode::HostUnreachable,
            DialError::NetworkUnreachable => ReplyCode::NetworkUnreachable,
            DialError::ConnectionRefused => ReplyCode::ConnectionRefused,
            DialError::TunnelLost => ReplyCode::GeneralFailure,
            DialError::TooManyStreams => ReplyCode::GeneralFailure,
            DialError::Refused(code) => if code == ReplyCode::Success {
                ReplyCode::GeneralFailure
            } else {
                code
            },
            DialError::Other => ReplyCode::GeneralFailure,
        }
    }
}

/// Why a SOCKS session ends before it relays.
#[derive(Clone, Copy, Debug, PartialEq, Eq, Structural)]
pub enum SocksError {
    /// A version byte other than `0x05`.
    ProtocolVersionMismatch,
    /// A reserved byte other than `0x00`.
    MalformedRequest,
    /// A domain name that is not UTF-8.
    InvalidEncoding,
    /// The client did not offer "no authentication required".
    NoAcceptableMethod,
    /// A command other than CONNECT.
    UnsupportedCommand,
    /// An address type other than IPv4, IPv6 or domain name.
    UnsupportedAddressType,
    /// The target could not be reached.
    Dial(DialError),
}

impl SocksError {
    /// The class this failure belongs to.
    pub open spec fn spec_kind(self) -> ErrorKind {
        match self {
            SocksError::ProtocolVersionMismatch => ErrorKind::ProtocolError,
            SocksError::MalformedRequest => ErrorKind::ProtocolError,
            SocksError::InvalidEncoding => ErrorKind::ProtocolError,
            SocksError::NoAcceptableMethod => ErrorKind::UnsupportedFeature,
            SocksError::UnsupportedCommand => ErrorKind::UnsupportedFeature,
            SocksError::UnsupportedAddressType => ErrorKind::UnsupportedFeature,
            SocksError::Dial(_) => ErrorKind::DialError,
        }
    }

    /// The reply the client gets before the session closes; `None` where the
    /// session closes without a reply. A greeting has no reply of this form,
    /// so nothing that fails before the request is read has one.
    pub open spec fn spec_reply_code(self) -> Option<ReplyCode> {
        match self {
            SocksError::ProtocolVersionMismatch => None,
            SocksError::MalformedRequest => None,
            SocksError::NoAcceptableMethod => None,
            SocksError::InvalidEncoding => Some(ReplyCode::GeneralFailure),
            SocksError::UnsupportedCommand => Some(ReplyCode::CommandUnsupported),
            SocksError::UnsupportedAddressType => Some(ReplyCode::AddressTypeUnsupported),
            SocksError::Dial(e) => Some(e.spec_reply_code()),
        }
    }

    /// The class this failure belongs to.
    pub fn kind(self) -> (kind: ErrorKind)
        ensures
            kind == self.spec_kind(),
    {
        match self {
            SocksError::ProtocolVersionMismatch => ErrorKind::ProtocolError,
            SocksError::MalformedRequest => ErrorKind::ProtocolError,
            SocksError::InvalidEncoding => ErrorKind::ProtocolError,
            SocksError::NoAcceptableMethod => ErrorKind::UnsupportedFeature,
            SocksError::UnsupportedCommand => ErrorKind::UnsupportedFeature,
            SocksError::UnsupportedAddressType => ErrorKind::UnsupportedFeature,
            SocksError::Dial(_) => ErrorKind::DialError,
        }
    }

    /// The reply the client gets before the session closes, if it gets one.
    pub fn reply_code(self) -> (code: Option<ReplyCode>)
        ensures
            code == self.spec_reply_code(),
            code != Some(ReplyCode::Success),
    {
        match self {
            SocksError::ProtocolVersionMismatch => None,
            SocksError::MalformedRequest => None,
            SocksError::NoAcceptableMethod => None,
            SocksError::InvalidEncoding => Some(ReplyCode::GeneralFailure),
            SocksError::UnsupportedCommand => Some(ReplyCode::CommandUnsupported),
            SocksError::UnsupportedAddressType => Some(ReplyCode::AddressTypeUnsupported),
            SocksError::Dial(e) => Some(e.reply_code()),
        }
    }
}

/// Why an established control channel has to be given up.
#[derive(Clone, Copy, Debug, PartialEq, Eq, Structural)]
pub enum ChannelError {
    /// Reading from or writing to the control socket failed.
    Io,
    /// A frame did not decrypt: its authentication tag did not match.
    DecryptionFailed,
    /// A frame announced more bytes than the ceiling allows, or a payload
    /// is longer than a length prefix can announce.
    FrameTooLarge,
    /// A frame decrypted to something that is no message.
    MalformedMessage,
}

/// Why a tunnel could not be set up, or was lost.
#[derive(Clone, Copy, Debug, PartialEq, Eq, Structural)]
pub enum TunnelError {
    /// The relay server did not answer within the connect timeout.
    ConnectTimeout,
    /// The relay server could not be connected to.
    ConnectFailed,
    /// The relay server did not return the nonce under a valid signature.
    HandshakeFailed,
    /// The control channel failed.
    Channel(ChannelError),
}

impl TunnelError {
    /// The class this failure belongs to.
    pub open spec fn spec_kind(self) -> ErrorKind {
        match self {
            TunnelError::ConnectTimeout => ErrorKind::DialError,
            TunnelError::ConnectFailed => ErrorKind::DialError,
            TunnelError::HandshakeFailed => ErrorKind::HandshakeFailed,
            TunnelError::Channel(_) => ErrorKind::ChannelError,
        }
    }

    /// The class this failure belongs to.
    pub fn kind(self) -> (kind: ErrorKind)
        ensures
            kind == self.spec_kind(),
    {
        match self {
            TunnelError::ConnectTimeout => ErrorKind::DialError,
            TunnelError::ConnectFailed => ErrorKind::DialError,
            TunnelError::HandshakeFailed => ErrorKind::HandshakeFailed,
            TunnelError::Channel(_) => ErrorKind::ChannelError,
        }
    }
}

} // verus!
