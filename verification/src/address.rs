//! The three address encodings of SOCKS5, and the address of a reply.

use vstd::prelude::*;
use vstd::utf8::{decode_utf8, encode_utf8, valid_utf8};
use crate::consts::{is_address_type, ATYPE_DOMAIN, ATYPE_IPV4, ATYPE_IPV6};
use crate::error::{DialError, ErrorKind, SocksError};
use crate::parsed::Parsed;
use crate::wire::{be16, be16_bytes, lemma_bytes_of_be16, read_be16, write_be16};

verus! {

/// An IP address: four bytes, or eight 16 bit groups.
#[derive(Clone, Copy, Debug, PartialEq, Eq, Structural)]
pub enum IpAddress {
    V4(u8, u8, u8, u8),
    V6(u16, u16, u16, u16, u16, u16, u16, u16),
}

impl IpAddress {
    /// The address type byte that announces this address.
    pub open spec fn wire_type(self) -> u8 {
        match self {
            IpAddress::V4(..) => ATYPE_IPV4,
            IpAddress::V6(..) => ATYPE_IPV6,
        }
    }

    /// The address on the wire: 4 bytes, or 16 bytes as eight big-endian groups.
    pub open spec fn wire_bytes(self) -> Seq<u8> {
        match self {
            IpAddress::V4(a, b, c, d) => seq![a, b, c, d],
            IpAddress::V6(a, b, c, d, e, f, g, h) => be16_bytes(a) + be16_bytes(b) + be16_bytes(c)
                + be16_bytes(d) + be16_bytes(e) + be16_bytes(f) + be16_bytes(g) + be16_bytes(h),
        }
    }

    /// The address type byte that announces this address.
    pub fn atype(&self) -> (tag: u8)
        ensures
            tag == self.wire_type(),
    {
        match self {
            IpAddress::V4(..) => ATYPE_IPV4,
            IpAddress::V6(..) => ATYPE_IPV6,
        }
    }

    /// The address as it goes on the wire.
    pub fn to_bytes(&self) -> (bytes: Vec<u8>)
        ensures
            bytes@ == self.wire_bytes(),
    {
        let mut out: Vec<u8> = Vec::new();
        match *self {
            IpAddress::V4(a, b, c, d) => {
                out.push(a);
                out.push(b);
                out.push(c);
                out.push(d);
                assert(out@ =~= self.wire_bytes());
            },
            IpAddress::V6(a, b, c, d, e, f, g, h) => {
                write_be16(&mut out, a);
                write_be16(&mut out, b);
                write_be16(&mut out, c);
                write_be16(&mut out, d);
                write_be16(&mut out, e);
                write_be16(&mut out, f);
                write_be16(&mut out, g);
                write_be16(&mut out, h);
                assert(out@ =~= self.wire_bytes());
            },
        }
        out
    }
}

/// Where a client wants to go, or where a connection is bound.
#[derive(Debug, PartialEq, Eq)]
pub enum Address {
    V4(u8, u8, u8, u8),
    V6(u16, u16, u16, u16, u16, u16, u16, u16),
    /// A host name, and the first address the resolver returned for it once
    /// it has been asked. The other addresses are dropped.
    Domain { name: String, resolved: Option<IpAddress> },
}

/// An [`Address`] as a mathematical value.
pub enum AddressView {
    V4(u8, u8, u8, u8),
    V6(u16, u16, u16, u16, u16, u16, u16, u16),
    Domain { name: Seq<char>, resolved: Option<IpAddress> },
}

impl View for Address {
    type V = AddressView;

    open spec fn view(&self) -> AddressView {
        match *self {
            Address::V4(a, b, c, d) => AddressView::V4(a, b, c, d),
            Address::V6(a, b, c, d, e, f, g, h) => AddressView::V6(a, b, c, d, e, f, g, h),
            Address::Domain { name, resolved } => AddressView::Domain { name: name@, resolved },
        }
    }
}

impl AddressView {
    /// A domain name takes at most 255 bytes on the wire.
    pub open spec fn wf(self) -> bool {
        self matches AddressView::Domain { name, .. } ==> encode_utf8(name).len() <= 255
    }

    /// The IP address this address stands for, if it is known.
    pub open spec fn ip(self) -> Option<IpAddress> {
        match self {
            AddressView::V4(a, b, c, d) => Some(IpAddress::V4(a, b, c, d)),
            AddressView::V6(a, b, c, d, e, f, g, h) => Some(IpAddress::V6(a, b, c, d, e, f, g, h)),
            AddressView::Domain { resolved, .. } => resolved,
        }
    }

    /// Whether the address can be dialed: a domain name has to be resolved first.
    pub open spec fn is_resolved(self) -> bool {
        self.ip() is Some
    }

    /// What becomes of the address when the resolver has returned `found`:
    /// a domain name keeps the first address, or fails if there is none;
    /// an IP address stays as it is.
    pub open spec fn resolve(self, found: Seq<IpAddress>) -> Result<AddressView, SocksError> {
        match self {
            AddressView::Domain { name, .. } => if found.len() == 0 {
                Err(SocksError::Dial(DialError::ResolutionFailed))
            } else {
                Ok(AddressView::Domain { name, resolved: Some(found[0]) })
            },
            _ => Ok(self),
        }
    }
}

/// How an address of type `tag` is read from the front of `input`.
pub open spec fn spec_parse_address(tag: u8, input: Seq<u8>) -> Parsed<AddressView, SocksError> {
    if tag == ATYPE_IPV4 {
        if input.len() < 4 {
            Parsed::Incomplete
        } else {
            Parsed::Complete {
                value: AddressView::V4(input[0], input[1], input[2], input[3]),
                consumed: 4,
            }
        }
    } else if tag == ATYPE_IPV6 {
        if input.len() < 16 {
            Parsed::Incomplete
        } else {
            Parsed::Complete {
                value: AddressView::V6(
                    be16(input[0], input[1]),
                    be16(input[2], input[3]),
                    be16(input[4], input[5]),
                    be16(input[6], input[7]),
                    be16(input[8], input[9]),
                    be16(input[10], input[11]),
                    be16(input[12], input[13]),
                    be16(input[14], input[15]),
                ),
                consumed: 16,
            }
        }
    } else if tag == ATYPE_DOMAIN {
        if input.len() < 1 || input.len() < 1 + input[0] {
            Parsed::Incomplete
        } else {
            let name = input.subrange(1, 1 + input[0]);
            if valid_utf8(name) {
                Parsed::Complete {
                    value: AddressView::Domain { name: decode_utf8(name), resolved: None },
                    consumed: (1 + input[0]) as usize,
                }
            } else {
                Parsed::Rejected(SocksError::InvalidEncoding)
            }
        }
    } else {
        Parsed::Rejected(SocksError::UnsupportedAddressType)
    }
}

/// `String::from_utf8` of the standard library: the string that `bytes`
/// encode, or `None` where they are not valid UTF-8.
#[verifier::external_body]
fn string_from_utf8(bytes: Vec<u8>) -> (decoded: Option<String>)
    ensures
        decoded is Some <==> valid_utf8(bytes@),
        decoded matches Some(s) ==> s@ == decode_utf8(bytes@),
{
    match String::from_utf8(bytes) {
        Ok(s) => Some(s),
        Err(_) => None,
    }
}

/// Reads an address of type `tag` from the front of `input`.
///
/// An IPv4 address takes 4 bytes and an IPv6 address 16. A domain name
/// takes one length byte and that many bytes of UTF-8; it comes back
/// unresolved. Any other `tag` is refused without looking at `input`.
pub fn parse_address(tag: u8, input: &[u8]) -> (parsed: Parsed<Address, SocksError>)
    ensures
        parsed@ == spec_parse_address(tag, input@),
        parsed matches Parsed::Complete { value, .. } ==> value@.wf(),
{
    if tag == ATYPE_IPV4 {
        if input.len() < 4 {
            return Parsed::Incomplete;
        }
        Parsed::Complete { value: Address::V4(input[0], input[1], input[2], input[3]), consumed: 4 }
    } else if tag == ATYPE_IPV6 {
        if input.len() < 16 {
            return Parsed::Incomplete;
        }
        let a: u16 = read_be16(input[0], input[1]);
        let b: u16 = read_be16(input[2], input[3]);
        let c: u16 = read_be16(input[4], input[5]);
        let d: u16 = read_be16(input[6], input[7]);
        let e: u16 = read_be16(input[8], input[9]);
        let f: u16 = read_be16(input[10], input[11]);
        let g: u16 = read_be16(input[12], input[13]);
        let h: u16 = read_be16(input[14], input[15]);
        Parsed::Complete { value: Address::V6(a, b, c, d, e, f, g, h), consumed: 16 }
    } else if tag == ATYPE_DOMAIN {
        if input.len() < 1 {
            return Parsed::Incomplete;
        }
        let len: usize = input[0] as usize;
        if input.len() < 1 + len {
            return Parsed::Incomplete;
        }
        let mut raw: Vec<u8> = Vec::new();
        let mut i: usize = 0;
        while i < len
            invariant
                i <= len,
                1 + len <= input@.len(),
                raw@ == input@.subrange(1, 1 + i),
            decreases len - i,
        {
            raw.push(input[1 + i]);
            i = i + 1;
            assert(raw@ =~= input@.subrange(1, 1 + i));
        }
        let ghost name_bytes = raw@;
        match string_from_utf8(raw) {
            Some(name) => {
                proof {
                    vstd::utf8::decode_utf8_encode_utf8(name_bytes);
                }
                Parsed::Complete { value: Address::Domain { name, resolved: None }, consumed: 1 + len }
            },
            None => Parsed::Rejected(SocksError::InvalidEncoding),
        }
    } else {
        Parsed::Rejected(SocksError::UnsupportedAddressType)
    }
}

impl Address {
    /// The address `ip`, as a target or as a bound address.
    pub fn from_ip(ip: IpAddress) -> (address: Address)
        ensures
            address@.ip() == Some(ip),
            !(address@ is Domain),
            address@.wf(),
    {
        match ip {
            IpAddress::V4(a, b, c, d) => Address::V4(a, b, c, d),
            IpAddress::V6(a, b, c, d, e, f, g, h) => Address::V6(a, b, c, d, e, f, g, h),
        }
    }

    /// The unresolved domain name `name`, or `None` where the name is longer
    /// than the 255 bytes a length byte can announce.
    pub fn domain(name: String) -> (address: Option<Address>)
        ensures
            address is Some <==> encode_utf8(name@).len() <= 255,
            address matches Some(a) ==> a@ == (AddressView::Domain { name: name@, resolved: None }),
    {
        if name.as_str().as_bytes().len() <= 255 {
            Some(Address::Domain { name, resolved: None })
        } else {
            None
        }
    }

    /// The IP address this address stands for, if it is known.
    pub fn ip(&self) -> (ip: Option<IpAddress>)
        ensures
            ip == self@.ip(),
    {
        match self {
            Address::V4(a, b, c, d) => Some(IpAddress::V4(*a, *b, *c, *d)),
            Address::V6(a, b, c, d, e, f, g, h) => Some(
                IpAddress::V6(*a, *b, *c, *d, *e, *f, *g, *h),
            ),
            Address::Domain { resolved, .. } => *resolved,
        }
    }

    /// Whether the address can be dialed.
    pub fn is_resolved(&self) -> (resolved: bool)
        ensures
            resolved == self@.is_resolved(),
    {
        self.ip().is_some()
    }

    /// Hands the resolver's answer to the address. A domain name keeps the
    /// first address of `found` and fails with `ResolutionFailed` where
    /// `found` is empty; an IP address stays as it is. On failure nothing
    /// changes.
    pub fn resolve(&mut self, found: &[IpAddress]) -> (resolved: Result<(), SocksError>)
        ensures
            match resolved {
                Ok(()) => old(self)@.resolve(found@) == Ok::<AddressView, SocksError>(
                    final(self)@,
                ),
                Err(e) => old(self)@.resolve(found@) == Err::<AddressView, SocksError>(e)
                    && *final(self) == *old(self),
            },
            resolved is Ok ==> final(self)@.is_resolved(),
            old(self)@.wf() ==> final(self)@.wf(),
    {
        match self {
            Address::Domain { name: _, resolved } => {
                if found.len() == 0 {
                    Err(SocksError::Dial(DialError::ResolutionFailed))
                } else {
                    *resolved = Some(found[0]);
                    Ok(())
                }
            },
            _ => Ok(()),
        }
    }
}

/// The address field of a reply that reports `address`: the bytes of the IP
/// address it stands for. A domain name is reported by the address it was
/// resolved to, never by its name.
pub fn encode_reply_address(address: &Address) -> (bytes: Vec<u8>)
    requires
        address@.is_resolved(),
    ensures
        bytes@ == address@.ip().unwrap().wire_bytes(),
{
    match address.ip() {
        Some(ip) => ip.to_bytes(),
        None => Vec::new(),
    }
}

/// The address type byte of a reply that reports `address`.
pub fn reply_address_type(address: &Address) -> (tag: u8)
    requires
        address@.is_resolved(),
    ensures
        tag == address@.ip().unwrap().wire_type(),
{
    match address.ip() {
        Some(ip) => ip.atype(),
        None => ATYPE_IPV4,
    }
}

/// An address and a port.
#[derive(Debug, PartialEq, Eq)]
pub struct Endpoint {
    pub address: Address,
    pub port: u16,
}

impl Clone for Address {
    fn clone(&self) -> (copy: Address)
        ensures
            copy == *self,
    {
        match self {
            Address::V4(a, b, c, d) => Address::V4(*a, *b, *c, *d),
            Address::V6(a, b, c, d, e, f, g, h) => Address::V6(*a, *b, *c, *d, *e, *f, *g, *h),
            Address::Domain { name, resolved } => Address::Domain {
                name: name.clone(),
                resolved: *resolved,
            },
        }
    }
}

impl Clone for Endpoint {
    fn clone(&self) -> (copy: Endpoint)
        ensures
            copy == *self,
    {
        Endpoint { address: self.address.clone(), port: self.port }
    }
}

/// An [`Endpoint`] as a mathematical value.
pub struct EndpointView {
    pub address: AddressView,
    pub port: u16,
}

impl View for Endpoint {
    type V = EndpointView;

    open spec fn view(&self) -> EndpointView {
        EndpointView { address: self.address@, port: self.port }
    }
}

/// An IPv4 or IPv6 address that was parsed is encoded as the very bytes it
/// was parsed from, under the address type it was parsed under.
pub proof fn lemma_parse_then_encode(tag: u8, input: Seq<u8>)
    requires
        tag == ATYPE_IPV4 || tag == ATYPE_IPV6,
        spec_parse_address(tag, input) is Complete,
    ensures
        ({
            let parsed = spec_parse_address(tag, input);
            let address = parsed->value;
            &&& address.ip() matches Some(ip)
            &&& ip.wire_type() == tag
            &&& ip.wire_bytes() == input.subrange(0, parsed->consumed as int)
        }),
{
    let parsed = spec_parse_address(tag, input);
    let ip = parsed->value.ip().unwrap();
    if tag == ATYPE_IPV6 {
        lemma_bytes_of_be16(input[0], input[1]);
        lemma_bytes_of_be16(input[2], input[3]);
        lemma_bytes_of_be16(input[4], input[5]);
        lemma_bytes_of_be16(input[6], input[7]);
        lemma_bytes_of_be16(input[8], input[9]);
        lemma_bytes_of_be16(input[10], input[11]);
        lemma_bytes_of_be16(input[12], input[13]);
        lemma_bytes_of_be16(input[14], input[15]);
    }
    assert(ip.wire_bytes() =~= input.subrange(0, parsed->consumed as int));
}

/// The encoding of an IP address, whatever follows it, is parsed as that
/// address and as nothing more.
pub proof fn lemma_encode_then_parse(ip: IpAddress, rest: Seq<u8>)
    ensures
        ({
            let parsed = spec_parse_address(ip.wire_type(), ip.wire_bytes() + rest);
            &&& parsed is Complete
            &&& parsed->value.ip() == Some(ip)
            &&& !(parsed->value is Domain)
            &&& parsed->consumed == ip.wire_bytes().len()
        }),
{
    let input = ip.wire_bytes() + rest;
    match ip {
        IpAddress::V4(a, b, c, d) => {
            assert(input[0] == a && input[1] == b && input[2] == c && input[3] == d);
        },
        IpAddress::V6(a, b, c, d, e, f, g, h) => {
            assert(ip.wire_bytes().len() == 16);
            assert(be16(input[0], input[1]) == a);
            assert(be16(input[2], input[3]) == b);
            assert(be16(input[4], input[5]) == c);
            assert(be16(input[6], input[7]) == d);
            assert(be16(input[8], input[9]) == e);
            assert(be16(input[10], input[11]) == f);
            assert(be16(input[12], input[13]) == g);
            assert(be16(input[14], input[15]) == h);
        },
    }
}

/// A domain name that was parsed and then resolved is encoded as the first
/// address the resolver returned: its name plays no part.
pub proof fn lemma_domain_encodes_resolved_ip(input: Seq<u8>, found: Seq<IpAddress>)
    requires
        spec_parse_address(ATYPE_DOMAIN, input) is Complete,
        found.len() > 0,
    ensures
        ({
            let parsed = spec_parse_address(ATYPE_DOMAIN, input);
            &&& parsed->consumed == 1 + input[0]
            &&& parsed->value.resolve(found) matches Ok(address)
            &&& address.ip() == Some(found[0])
        }),
{
}

/// A tag that names no address type is refused as an unsupported feature,
/// whatever the input holds, and a tag that names one never is.
pub proof fn lemma_unsupported_address_type(tag: u8, input: Seq<u8>)
    ensures
        !is_address_type(tag) ==> spec_parse_address(tag, input) == Parsed::<
            AddressView,
            SocksError,
        >::Rejected(SocksError::UnsupportedAddressType),
        is_address_type(tag) ==> spec_parse_address(tag, input) != Parsed::<
            AddressView,
            SocksError,
        >::Rejected(SocksError::UnsupportedAddressType),
        SocksError::UnsupportedAddressType.spec_kind() == ErrorKind::UnsupportedFeature,
{
}

} // verus!
