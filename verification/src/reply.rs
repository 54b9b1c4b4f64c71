//! Reply codes: the status byte of a SOCKS5 reply.

use vstd::prelude::*;
use crate::consts::{
    REPLY_ADDR_UNSUPPORTED, REPLY_CMD_UNSUPPORTED, REPLY_CONN_DENIED, REPLY_CONN_REFUSED,
    REPLY_GENERAL_FAILURE, REPLY_HOST_UNREACHABLE, REPLY_NET_UNREACHABLE, REPLY_SUCCESS,
    REPLY_TTL_EXPIRED,
};

verus! {

/// The nine status values a SOCKS5 reply can carry.
#[derive(Clone, Copy, Debug, PartialEq, Eq, Structural)]
pub enum ReplyCode {
    Success,
    GeneralFailure,
    ConnectionNotAllowed,
    NetworkUnreachable,
    HostUnreachable,
    ConnectionRefused,
    TtlExpired,
    CommandUnsupported,
    AddressTypeUnsupported,
}

impl ReplyCode {
    /// The byte that stands for this code on the wire.
    pub open spec fn wire_byte(self) -> u8 {
        match self {
            ReplyCode::Success => REPLY_SUCCESS,
            ReplyCode::GeneralFailure => REPLY_GENERAL_FAILURE,
            ReplyCode::ConnectionNotAllowed => REPLY_CONN_DENIED,
            ReplyCode::NetworkUnreachable => REPLY_NET_UNREACHABLE,
            ReplyCode::HostUnreachable => REPLY_HOST_UNREACHABLE,
            ReplyCode::ConnectionRefused => REPLY_CONN_REFUSED,
            ReplyCode::TtlExpired => REPLY_TTL_EXPIRED,
            ReplyCode::CommandUnsupported => REPLY_CMD_UNSUPPORTED,
            ReplyCode::AddressTypeUnsupported => REPLY_ADDR_UNSUPPORTED,
        }
    }

    /// The code that `byte` stands for, if it stands for one.
    pub open spec fn of_wire_byte(byte: u8) -> Option<ReplyCode> {
        if byte == REPLY_SUCCESS {
            Some(ReplyCode::Success)
        } else if byte == REPLY_GENERAL_FAILURE {
            Some(ReplyCode::GeneralFailure)
        } else if byte == REPLY_CONN_DENIED {
            Some(ReplyCode::ConnectionNotAllowed)
        } else if byte == REPLY_NET_UNREACHABLE {
            Some(ReplyCode::NetworkUnreachable)
        } else if byte == REPLY_HOST_UNREACHABLE {
            Some(ReplyCode::HostUnreachable)
        } else if byte == REPLY_CONN_REFUSED {
            Some(ReplyCode::ConnectionRefused)
        } else if byte == REPLY_TTL_EXPIRED {
            Some(ReplyCode::TtlExpired)
        } else if byte == REPLY_CMD_UNSUPPORTED {
            Some(ReplyCode::CommandUnsupported)
        } else if byte == REPLY_ADDR_UNSUPPORTED {
            Some(ReplyCode::AddressTypeUnsupported)
        } else {
            None
        }
    }

    /// The byte that stands for this code on the wire.
    pub fn to_byte(self) -> (byte: u8)
        ensures
            byte == self.wire_byte(),
    {
        match self {
            ReplyCode::Success => REPLY_SUCCESS,
            ReplyCode::GeneralFailure => REPLY_GENERAL_FAILURE,
            ReplyCode::ConnectionNotAllowed => REPLY_CONN_DENIED,
            ReplyCode::NetworkUnreachable => REPLY_NET_UNREACHABLE,
            ReplyCode::HostUnreachable => REPLY_HOST_UNREACHABLE,
            ReplyCode::ConnectionRefused => REPLY_CONN_REFUSED,
            ReplyCode::TtlExpired => REPLY_TTL_EXPIRED,
            ReplyCode::CommandUnsupported => REPLY_CMD_UNSUPPORTED,
            ReplyCode::AddressTypeUnsupported => REPLY_ADDR_UNSUPPORTED,
        }
    }

    /// The code that `byte` stands for, if it stands for one.
    pub fn from_byte(byte: u8) -> (code: Option<ReplyCode>)
        ensures
            code == ReplyCode::of_wire_byte(byte),
    {
        if byte == REPLY_SUCCESS {
            Some(ReplyCode::Success)
        } else if byte == REPLY_GENERAL_FAILURE {
            Some(ReplyCode::GeneralFailure)
        } else if byte == REPLY_CONN_DENIED {
            Some(ReplyCode::ConnectionNotAllowed)
        } else if byte == REPLY_NET_UNREACHABLE {
            Some(ReplyCode::NetworkUnreachable)
        } else if byte == REPLY_HOST_UNREACHABLE {
            Some(ReplyCode::HostUnreachable)
        } else if byte == REPLY_CONN_REFUSED {
            Some(ReplyCode::ConnectionRefused)
        } else if byte == REPLY_TTL_EXPIRED {
            Some(ReplyCode::TtlExpired)
        } else if byte == REPLY_CMD_UNSUPPORTED {
            Some(ReplyCode::CommandUnsupported)
        } else if byte == REPLY_ADDR_UNSUPPORTED {
            Some(ReplyCode::AddressTypeUnsupported)
        } else {
            None
        }
    }
}

/// Every code is read back from its own byte, and the bytes that stand for a
/// code are exactly `0x00` to `0x08`.
pub proof fn lemma_reply_code_bytes(code: ReplyCode, byte: u8)
    ensures
        ReplyCode::of_wire_byte(code.wire_byte()) == Some(code),
        ReplyCode::of_wire_byte(byte) is Some <==> byte <= 0x08,
        ReplyCode::of_wire_byte(byte) matches Some(c) ==> c.wire_byte() == byte,
{
}

} // verus!
