//! The messages a SOCKS5 client sends: its greeting and its request.

use vstd::prelude::*;
use vstd::slice::slice_subrange;
use crate::address::{parse_address, spec_parse_address, Endpoint, EndpointView};
use crate::consts::{AUTH_NONE, CMD_BIND, CMD_CONNECT, CMD_UDP_ASSOCIATE, VERSION_NUMBER};
use crate::error::SocksError;
use crate::parsed::Parsed;
use crate::wire::{be16, read_be16};

verus! {

/// What a client can ask for. Only `Connect` is carried out.
#[derive(Clone, Copy, Debug, PartialEq, Eq, Structural)]
pub enum Command {
    Connect,
    Bind,
    UdpAssociate,
}

impl Command {
    /// The command that `byte` stands for, if it stands for one.
    pub open spec fn of_wire_byte(byte: u8) -> Option<Command> {
        if byte == CMD_CONNECT {
            Some(Command::Connect)
        } else if byte == CMD_BIND {
            Some(Command::Bind)
        } else if byte == CMD_UDP_ASSOCIATE {
            Some(Command::UdpAssociate)
        } else {
            None
        }
    }

    /// The command that `byte` stands for, if it stands for one.
    pub fn from_byte(byte: u8) -> (command: Option<Command>)
        ensures
            command == Command::of_wire_byte(byte),
    {
        if byte == CMD_CONNECT {
            Some(Command::Connect)
        } else if byte == CMD_BIND {
            Some(Command::Bind)
        } else if byte == CMD_UDP_ASSOCIATE {
            Some(Command::UdpAssociate)
        } else {
            None
        }
    }
}

/// A request as the client sent it: a command and the endpoint it is about.
#[derive(Debug, PartialEq, Eq)]
pub struct SocksRequest {
    pub command: Command,
    pub target: Endpoint,
}

/// A [`SocksRequest`] as a mathematical value.
pub struct SocksRequestView {
    pub command: Command,
    pub target: EndpointView,
}

impl View for SocksRequest {
    type V = SocksRequestView;

    open spec fn view(&self) -> SocksRequestView {
        SocksRequestView { command: self.command, target: self.target@ }
    }
}

/// How the version byte is read: the first byte has to be `0x05`.
pub open spec fn spec_parse_version(input: Seq<u8>) -> Parsed<(), SocksError> {
    if input.len() < 1 {
        Parsed::Incomplete
    } else if input[0] == VERSION_NUMBER {
        Parsed::Complete { value: (), consumed: 1 }
    } else {
        Parsed::Rejected(SocksError::ProtocolVersionMismatch)
    }
}

/// How the method list of a greeting is read: one count byte, then that
/// many method bytes.
pub open spec fn spec_parse_methods(input: Seq<u8>) -> Parsed<Seq<u8>, SocksError> {
    if input.len() < 1 || input.len() < 1 + input[0] {
        Parsed::Incomplete
    } else {
        Parsed::Complete {
            value: input.subrange(1, 1 + input[0]),
            consumed: (1 + input[0]) as usize,
        }
    }
}

/// Whether a client that offers `methods` can be served: it has to offer
/// "no authentication required", among others or alone.
pub open spec fn offers_no_auth(methods: Seq<u8>) -> bool {
    methods.contains(AUTH_NONE)
}

/// How a request is read, in the order of its bytes: the version, the
/// command, the reserved byte, the address type with its address, the port.
/// The first byte that cannot stand where it stands decides the rejection;
/// the command is judged last, once the whole request has been taken in.
pub open spec fn spec_parse_request(input: Seq<u8>) -> Parsed<SocksRequestView, SocksError> {
    if input.len() < 1 {
        Parsed::Incomplete
    } else if input[0] != VERSION_NUMBER {
        Parsed::Rejected(SocksError::ProtocolVersionMismatch)
    } else if input.len() < 3 {
        Parsed::Incomplete
    } else if input[2] != 0x00 {
        Parsed::Rejected(SocksError::MalformedRequest)
    } else if input.len() < 4 {
        Parsed::Incomplete
    } else {
        match spec_parse_address(input[3], input.skip(4)) {
            Parsed::Incomplete => Parsed::Incomplete,
            Parsed::Rejected(e) => Parsed::Rejected(e),
            Parsed::Complete { value: address, consumed } => {
                if input.len() < 4 + consumed + 2 {
                    Parsed::Incomplete
                } else {
                    match Command::of_wire_byte(input[1]) {
                        None => Parsed::Rejected(SocksError::UnsupportedCommand),
                        Some(command) => Parsed::Complete {
                            value: SocksRequestView {
                                command,
                                target: EndpointView {
                                    address,
                                    port: be16(input[4 + consumed], input[4 + consumed + 1]),
                                },
                            },
                            consumed: (4 + consumed + 2) as usize,
                        },
                    }
                }
            },
        }
    }
}

/// Checks the version byte at the front of `input`.
pub fn parse_version(input: &[u8]) -> (parsed: Parsed<(), SocksError>)
    ensures
        parsed == spec_parse_version(input@),
{
    if input.len() < 1 {
        Parsed::Incomplete
    } else if input[0] == VERSION_NUMBER {
        Parsed::Complete { value: (), consumed: 1 }
    } else {
        Parsed::Rejected(SocksError::ProtocolVersionMismatch)
    }
}

/// Reads the method list of a greeting from the front of `input`.
pub fn parse_methods(input: &[u8]) -> (parsed: Parsed<Vec<u8>, SocksError>)
    ensures
        parsed@ == spec_parse_methods(input@),
{
    if input.len() < 1 {
        return Parsed::Incomplete;
    }
    let count: usize = input[0] as usize;
    if input.len() < 1 + count {
        return Parsed::Incomplete;
    }
    let mut methods: Vec<u8> = Vec::new();
    let mut i: usize = 0;
    while i < count
        invariant
            i <= count,
            1 + count <= input@.len(),
            methods@ == input@.subrange(1, 1 + i),
        decreases count - i,
    {
        methods.push(input[1 + i]);
        i = i + 1;
        assert(methods@ =~= input@.subrange(1, 1 + i));
    }
    Parsed::Complete { value: methods, consumed: 1 + count }
}

/// Whether `methods` holds "no authentication required".
pub fn accepts_no_auth(methods: &[u8]) -> (accepted: bool)
    ensures
        accepted == offers_no_auth(methods@),
{
    let mut i: usize = 0;
    while i < methods.len()
        invariant
            i <= methods@.len(),
            forall|j: int| 0 <= j < i ==> methods@[j] != AUTH_NONE,
        decreases methods@.len() - i,
    {
        if methods[i] == AUTH_NONE {
            return true;
        }
        i = i + 1;
    }
    false
}

/// Reads a request from the front of `input`.
pub fn parse_request(input: &[u8]) -> (parsed: Parsed<SocksRequest, SocksError>)
    ensures
        parsed@ == spec_parse_request(input@),
        parsed matches Parsed::Complete { value, .. } ==> value.target.address@.wf(),
{
    if input.len() < 1 {
        return Parsed::Incomplete;
    }
    if input[0] != VERSION_NUMBER {
        return Parsed::Rejected(SocksError::ProtocolVersionMismatch);
    }
    if input.len() < 3 {
        return Parsed::Incomplete;
    }
    if input[2] != 0x00 {
        return Parsed::Rejected(SocksError::MalformedRequest);
    }
    if input.len() < 4 {
        return Parsed::Incomplete;
    }
    let rest = slice_subrange(input, 4, input.len());
    assert(rest@ =~= input@.skip(4));
    match parse_address(input[3], rest) {
        Parsed::Incomplete => Parsed::Incomplete,
        Parsed::Rejected(e) => Parsed::Rejected(e),
        Parsed::Complete { value: address, consumed } => {
            if input.len() - 4 < consumed || input.len() - 4 - consumed < 2 {
                return Parsed::Incomplete;
            }
            match Command::from_byte(input[1]) {
                None => Parsed::Rejected(SocksError::UnsupportedCommand),
                Some(command) => {
                    let port: u16 = read_be16(input[4 + consumed], input[4 + consumed + 1]);
                    Parsed::Complete {
                        value: SocksRequest { command, target: Endpoint { address, port } },
                        consumed: 4 + consumed + 2,
                    }
                },
            }
        },
    }
}

} // verus!
