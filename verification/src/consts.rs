//! Wire constants of the SOCKS5 protocol.

use vstd::prelude::*;

verus! {

/// Protocol version carried by every greeting, request and reply.
pub const VERSION_NUMBER: u8 = 0x05;

/// Authentication method "no authentication required".
pub const AUTH_NONE: u8 = 0x00;

/// Method answer meaning that none of the offered methods is acceptable.
pub const AUTH_NO_ACCEPTABLE: u8 = 0xFF;

/// Address type of a four byte IPv4 address.
pub const ATYPE_IPV4: u8 = 0x01;

/// Address type of a length-prefixed domain name.
pub const ATYPE_DOMAIN: u8 = 0x03;

/// Address type of a sixteen byte IPv6 address.
pub const ATYPE_IPV6: u8 = 0x04;

/// Command bytes of a request.
pub const CMD_CONNECT: u8 = 0x01;

pub const CMD_BIND: u8 = 0x02;

pub const CMD_UDP_ASSOCIATE: u8 = 0x04;

/// Reply codes, `0x00` to `0x08`.
pub const REPLY_SUCCESS: u8 = 0x00;

pub const REPLY_GENERAL_FAILURE: u8 = 0x01;

pub const REPLY_CONN_DENIED: u8 = 0x02;

pub const REPLY_NET_UNREACHABLE: u8 = 0x03;

pub const REPLY_HOST_UNREACHABLE: u8 = 0x04;

pub const REPLY_CONN_REFUSED: u8 = 0x05;

pub const REPLY_TTL_EXPIRED: u8 = 0x06;

pub const REPLY_CMD_UNSUPPORTED: u8 = 0x07;

pub const REPLY_ADDR_UNSUPPORTED: u8 = 0x08;

/// Whether `tag` names one of the three address encodings.
pub open spec fn is_address_type(tag: u8) -> bool {
    tag == ATYPE_IPV4 || tag == ATYPE_DOMAIN || tag == ATYPE_IPV6
}

} // verus!
