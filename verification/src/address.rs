//! The address field that requests and replies share, and its codec.
//!
//! An address is laid out as a tag byte, the address itself, and a port:
//!
//! | kind        | layout                              |
//! |-------------|-------------------------------------|
//! | IPv4        | `0x01`, 4 address bytes, port       |
//! | domain name | `0x03`, length, that many bytes, port |
//! | IPv6        | `0x04`, 16 address bytes, port      |
//!
//! The port is a 16-bit big-endian integer, and so is each of the eight groups
//! of an IPv6 address.

use vstd::prelude::*;
use vstd::slice::slice_to_vec;
use crate::request_error::RequestError;
use crate::wire::{
    lemma_u16_join_split, lemma_u16_split_join, lemma_u16s_from_to, lemma_u16s_to_be_push,
    lemma_u16s_to_from, push_u16, read_slice, read_u16, read_u8, u16_from_be, u16_to_be,
    u16s_from_be, u16s_to_be,
};

verus! {

/// The tag of an IPv4 address.
pub const TAG_IPV4: u8 = 0x01;

/// The tag of a domain name.
pub const TAG_DOMAIN: u8 = 0x03;

/// The tag of an IPv6 address.
pub const TAG_IPV6: u8 = 0x04;

/// An IP address of either family.
#[derive(Copy, Clone, Eq, PartialEq, Debug)]
pub enum IpAddr {
    /// The four bytes of an IPv4 address, in network order.
    V4([u8; 4]),
    /// The eight 16-bit groups of an IPv6 address, first group first.
    V6([u16; 8]),
}

/// The destination of a request, or the address that a reply reports.
#[derive(Eq, PartialEq, Debug)]
pub enum Address {
    /// An IPv4 or IPv6 address and a port.
    SocketAddr(IpAddr, u16),
    /// The bytes of a domain name and a port.
    DomainPort(Vec<u8>, u16),
}

/// An address as a mathematical value.
pub enum AddressView {
    /// An IPv4 address, as its bytes in network order, and a port.
    Ipv4 { octets: Seq<u8>, port: u16 },
    /// An IPv6 address, as its 16-bit groups, and a port.
    Ipv6 { groups: Seq<u16>, port: u16 },
    /// The bytes of a domain name and a port.
    Domain { name: Seq<u8>, port: u16 },
}

/// Whether `tag` is the tag of one of the three address kinds.
pub open spec fn is_supported_tag(tag: u8) -> bool {
    tag == TAG_IPV4 || tag == TAG_DOMAIN || tag == TAG_IPV6
}

impl AddressView {
    /// Whether the address can be laid out: an IPv4 address has four bytes,
    /// an IPv6 address eight groups, and the length of a domain name fits in
    /// one byte.
    pub open spec fn wf(self) -> bool {
        match self {
            AddressView::Ipv4 { octets, .. } => octets.len() == 4,
            AddressView::Ipv6 { groups, .. } => groups.len() == 8,
            AddressView::Domain { name, .. } => name.len() < 256,
        }
    }

    /// The bytes of the address on the wire.
    pub open spec fn encode(self) -> Seq<u8> {
        match self {
            AddressView::Ipv4 { octets, port } => seq![TAG_IPV4] + octets + u16_to_be(port),
            AddressView::Ipv6 { groups, port } => seq![TAG_IPV6] + u16s_to_be(groups) + u16_to_be(
                port,
            ),
            AddressView::Domain { name, port } => seq![TAG_DOMAIN, name.len() as u8] + name
                + u16_to_be(port),
        }
    }

    /// The address that `bytes` starts with, or the reason why it starts
    /// with none. Bytes that follow the address are ignored.
    pub open spec fn decode(bytes: Seq<u8>) -> Result<AddressView, RequestError> {
        if bytes.len() == 0 {
            Err(RequestError::PacketTooShort)
        } else if bytes[0] == TAG_IPV4 {
            if bytes.len() < 7 {
                Err(RequestError::PacketTooShort)
            } else {
                Ok(
                    AddressView::Ipv4 {
                        octets: bytes.subrange(1, 5),
                        port: u16_from_be(bytes[5], bytes[6]),
                    },
                )
            }
        } else if bytes[0] == TAG_IPV6 {
            if bytes.len() < 19 {
                Err(RequestError::PacketTooShort)
            } else {
                Ok(
                    AddressView::Ipv6 {
                        groups: u16s_from_be(bytes.subrange(1, 17)),
                        port: u16_from_be(bytes[17], bytes[18]),
                    },
                )
            }
        } else if bytes[0] == TAG_DOMAIN {
            if bytes.len() < 2 || bytes.len() < bytes[1] + 4 {
                Err(RequestError::PacketTooShort)
            } else {
                let len = bytes[1] as int;
                Ok(
                    AddressView::Domain {
                        name: bytes.subrange(2, 2 + len),
                        port: u16_from_be(bytes[2 + len], bytes[3 + len]),
                    },
                )
            }
        } else {
            Err(RequestError::AddressTypeNotSupported(bytes[0]))
        }
    }

    /// Round trip: decoding the bytes of an address gives the address back.
    pub proof fn lemma_decode_encode(self)
        requires
            self.wf(),
        ensures
            AddressView::decode(self.encode()) == Ok::<AddressView, RequestError>(self),
    {
        self.lemma_decode_ignores_rest(Seq::empty());
        assert(self.encode() + Seq::<u8>::empty() =~= self.encode());
    }

    /// Decoding looks at the bytes of the address only: whatever follows
    /// them in the buffer, the address comes back.
    pub proof fn lemma_decode_ignores_rest(self, rest: Seq<u8>)
        requires
            self.wf(),
        ensures
            AddressView::decode(self.encode() + rest) == Ok::<AddressView, RequestError>(self),
    {
        let bytes = self.encode() + rest;
        match self {
            AddressView::Ipv4 { octets, port } => {
                lemma_u16_split_join(port);
                assert(bytes.subrange(1, 5) =~= octets);
            },
            AddressView::Ipv6 { groups, port } => {
                lemma_u16_split_join(port);
                lemma_u16s_to_from(groups);
                assert(bytes.subrange(1, 17) =~= u16s_to_be(groups));
            },
            AddressView::Domain { name, port } => {
                lemma_u16_split_join(port);
                let len = name.len() as int;
                assert(bytes[1] == len);
                assert(bytes.subrange(2, 2 + len) =~= name);
            },
        }
    }

    /// The converse: what decodes from a buffer can be laid out, and its
    /// bytes are those that the buffer starts with.
    pub proof fn lemma_encode_decode(bytes: Seq<u8>)
        requires
            AddressView::decode(bytes) is Ok,
        ensures
            AddressView::decode(bytes).unwrap().wf(),
            AddressView::decode(bytes).unwrap().encode().len() <= bytes.len(),
            AddressView::decode(bytes).unwrap().encode() == bytes.subrange(
                0,
                AddressView::decode(bytes).unwrap().encode().len() as int,
            ),
    {
        let address = AddressView::decode(bytes).unwrap();
        let again = address.encode();
        match address {
            AddressView::Ipv4 { octets, port } => {
                lemma_u16_join_split(bytes[5], bytes[6]);
                assert(again =~= bytes.subrange(0, 7));
            },
            AddressView::Ipv6 { groups, port } => {
                lemma_u16_join_split(bytes[17], bytes[18]);
                lemma_u16s_from_to(bytes.subrange(1, 17));
                assert(again =~= bytes.subrange(0, 19));
            },
            AddressView::Domain { name, port } => {
                let len = bytes[1] as int;
                lemma_u16_join_split(bytes[2 + len], bytes[3 + len]);
                assert(again =~= bytes.subrange(0, len + 4));
            },
        }
    }

    /// Truncation: no proper prefix of the bytes of an address decodes; each
    /// is reported as too short.
    pub proof fn lemma_truncated(self, len: int)
        requires
            self.wf(),
            0 <= len < self.encode().len(),
        ensures
            AddressView::decode(self.encode().subrange(0, len)) == Err::<AddressView, RequestError>(
                RequestError::PacketTooShort,
            ),
    {
    }

    /// Tag rejection: a buffer whose first byte is none of the three tags is
    /// refused with that byte, whatever follows it.
    pub proof fn lemma_unsupported_tag(bytes: Seq<u8>)
        requires
            bytes.len() > 0,
            !is_supported_tag(bytes[0]),
        ensures
            AddressView::decode(bytes) == Err::<AddressView, RequestError>(
                RequestError::AddressTypeNotSupported(bytes[0]),
            ),
    {
    }
}

impl View for Address {
    type V = AddressView;

    open spec fn view(&self) -> AddressView {
        match *self {
            Address::SocketAddr(IpAddr::V4(octets), port) => AddressView::Ipv4 {
                octets: octets@,
                port,
            },
            Address::SocketAddr(IpAddr::V6(groups), port) => AddressView::Ipv6 {
                groups: groups@,
                port,
            },
            Address::DomainPort(name, port) => AddressView::Domain { name: name@, port },
        }
    }
}

impl Clone for Address {
    fn clone(&self) -> (res: Address)
        ensures
            res@ == self@,
    {
        match self {
            Address::SocketAddr(ip, port) => Address::SocketAddr(*ip, *port),
            Address::DomainPort(name, port) => Address::DomainPort(name.clone(), *port),
        }
    }
}

impl Address {
    /// Whether the address can be encoded: a domain name must be shorter than
    /// 256 bytes. Every address that was decoded can be.
    pub open spec fn wf(&self) -> bool {
        self@.wf()
    }

    /// Whether the address can be encoded.
    pub fn is_encodable(&self) -> (res: bool)
        ensures
            res == self.wf(),
    {
        match self {
            Address::SocketAddr(_, _) => true,
            Address::DomainPort(name, _) => name.len() < 256,
        }
    }

    /// The IPv4 address `0.0.0.0` with port 0, which stands for "no address".
    pub fn unspecified() -> (res: Address)
        ensures
            res@ == (AddressView::Ipv4 { octets: seq![0u8, 0u8, 0u8, 0u8], port: 0 }),
            res.wf(),
    {
        let octets: [u8; 4] = [0u8, 0u8, 0u8, 0u8];
        assert(octets@ =~= seq![0u8, 0u8, 0u8, 0u8]);
        Address::SocketAddr(IpAddr::V4(octets), 0)
    }

    /// Decodes the address that `bytes` starts with.
    ///
    /// Fails with `AddressTypeNotSupported` and the tag when the first byte
    /// is not the tag of a known kind, and with `PacketTooShort` when the
    /// buffer ends before the address does.
    pub fn decode(bytes: &[u8]) -> (res: Result<Address, RequestError>)
        ensures
            match res {
                Ok(address) => AddressView::decode(bytes@) == Ok::<AddressView, RequestError>(
                    address@,
                ),
                Err(error) => AddressView::decode(bytes@) == Err::<AddressView, RequestError>(
                    error,
                ),
            },
            res matches Ok(address) ==> address.wf(),
            bytes@.len() > 0 && !is_supported_tag(bytes@[0]) ==> res == Err::<
                Address,
                RequestError,
            >(RequestError::AddressTypeNotSupported(bytes@[0])),
    {
        let tag: u8 = read_u8(bytes, 0)?;
        if tag == TAG_IPV4 {
            let port: u16 = read_u16(bytes, 5)?;
            let octets: [u8; 4] = [bytes[1], bytes[2], bytes[3], bytes[4]];
            assert(octets@ =~= bytes@.subrange(1, 5));
            Ok(Address::SocketAddr(IpAddr::V4(octets), port))
        } else if tag == TAG_IPV6 {
            let port: u16 = read_u16(bytes, 17)?;
            let mut groups: [u16; 8] = [0u16; 8];
            let mut i: usize = 0;
            while i < 8
                invariant
                    i <= 8,
                    bytes@.len() >= 19,
                    forall|j: int|
                        0 <= j < i ==> groups@[j] == u16_from_be(
                            bytes@[1 + 2 * j],
                            bytes@[2 + 2 * j],
                        ),
                decreases 8 - i,
            {
                let group: u16 = read_u16(bytes, 1 + 2 * i)?;
                groups[i] = group;
                i += 1;
            }
            assert(groups@ =~= u16s_from_be(bytes@.subrange(1, 17)));
            Ok(Address::SocketAddr(IpAddr::V6(groups), port))
        } else if tag == TAG_DOMAIN {
            let len: usize = read_u8(bytes, 1)? as usize;
            let port: u16 = read_u16(bytes, len + 2)?;
            let name: Vec<u8> = slice_to_vec(read_slice(bytes, 2, len)?);
            Ok(Address::DomainPort(name, port))
        } else {
            Err(RequestError::AddressTypeNotSupported(tag))
        }
    }

    /// Encodes the address: its tag, the address itself, and the port.
    pub fn encode(&self) -> (res: Vec<u8>)
        requires
            self.wf(),
        ensures
            res@ == self@.encode(),
    {
        let mut res: Vec<u8> = Vec::new();
        match self {
            Address::SocketAddr(IpAddr::V4(octets), port) => {
                res.push(TAG_IPV4);
                res.extend_from_slice(octets);
                push_u16(&mut res, *port);
            },
            Address::SocketAddr(IpAddr::V6(groups), port) => {
                res.push(TAG_IPV6);
                let mut i: usize = 0;
                while i < 8
                    invariant
                        i <= 8,
                        res@ == seq![TAG_IPV6] + u16s_to_be(groups@.subrange(0, i as int)),
                    decreases 8 - i,
                {
                    proof {
                        lemma_u16s_to_be_push(groups@.subrange(0, i as int), groups@[i as int]);
                        assert(groups@.subrange(0, i as int).push(groups@[i as int])
                            =~= groups@.subrange(0, i + 1));
                    }
                    push_u16(&mut res, groups[i]);
                    i += 1;
                }
                assert(groups@.subrange(0, 8) =~= groups@);
                push_u16(&mut res, *port);
            },
            Address::DomainPort(name, port) => {
                res.push(TAG_DOMAIN);
                res.push(name.len() as u8);
                res.extend_from_slice(name.as_slice());
                push_u16(&mut res, *port);
            },
        }
        res
    }
}

} // verus!
