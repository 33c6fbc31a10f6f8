//! Addresses and prefixes: the tagged raw forms handed out by a data source
//! and the closed sum types they decode to.

use vstd::prelude::*;

use crate::error::BgpStreamError;

verus! {

/// Version tag of an IPv4 address in a [`RawAddress`].
pub const ADDR_VERSION_IPV4: u8 = 4;

/// Version tag of an IPv6 address in a [`RawAddress`].
pub const ADDR_VERSION_IPV6: u8 = 6;

/// An address as the data source stores it: a version tag and sixteen bytes
/// of storage shared by both families. An IPv4 address occupies the first
/// four bytes.
#[derive(Debug, Clone, Copy, PartialEq, Eq, Hash)]
pub struct RawAddress {
    pub version: u8,
    pub octets: [u8; 16],
}

/// A prefix as the data source stores it: a raw address and a mask length.
#[derive(Debug, Clone, Copy, PartialEq, Eq, Hash)]
pub struct RawPrefix {
    pub address: RawAddress,
    pub mask_len: u8,
}

/// A decoded IP address, in network byte order.
#[derive(Debug, Clone, Copy, PartialEq, Eq, Hash)]
pub enum IpAddress {
    V4([u8; 4]),
    V6([u8; 16]),
}

/// A decoded prefix: an address and the number of leading bits that count.
#[derive(Debug, Clone, Copy, PartialEq, Eq, Hash)]
pub struct IpPrefix {
    pub address: IpAddress,
    pub mask_len: u8,
}

impl IpAddress {
    /// Number of bits of an address of this family.
    pub open spec fn bit_width(self) -> int {
        match self {
            IpAddress::V4(_) => 32,
            IpAddress::V6(_) => 128,
        }
    }
}

impl IpPrefix {
    /// A prefix is well formed when its mask fits its address family.
    pub open spec fn wf(self) -> bool {
        self.mask_len <= self.address.bit_width()
    }
}

/// The address that a raw address stands for, if its tag names a family.
pub open spec fn address_of(raw: RawAddress) -> Result<IpAddress, BgpStreamError> {
    if raw.version == ADDR_VERSION_IPV4 {
        Ok(IpAddress::V4([raw.octets[0], raw.octets[1], raw.octets[2], raw.octets[3]]))
    } else if raw.version == ADDR_VERSION_IPV6 {
        Ok(IpAddress::V6(raw.octets))
    } else {
        Err(BgpStreamError::InvalidIpAddress)
    }
}

/// The prefix that a raw prefix stands for: its address must decode, and
/// its mask must fit the family of that address.
pub open spec fn prefix_of(raw: RawPrefix) -> Result<IpPrefix, BgpStreamError> {
    match address_of(raw.address) {
        Err(e) => Err(e),
        Ok(address) => if raw.mask_len <= address.bit_width() {
            Ok(IpPrefix { address, mask_len: raw.mask_len })
        } else {
            Err(BgpStreamError::InvalidMaskLen)
        },
    }
}

/// Decodes a tagged address: tag 4 reads the first four bytes as IPv4, tag 6
/// reads all sixteen as IPv6, any other tag is `InvalidIpAddress`.
pub fn parse_bgpstream_ip(ip: &RawAddress) -> (r: Result<IpAddress, BgpStreamError>)
    ensures
        r == address_of(*ip),
{
    if ip.version == ADDR_VERSION_IPV4 {
        Ok(IpAddress::V4([ip.octets[0], ip.octets[1], ip.octets[2], ip.octets[3]]))
    } else if ip.version == ADDR_VERSION_IPV6 {
        Ok(IpAddress::V6(ip.octets))
    } else {
        Err(BgpStreamError::InvalidIpAddress)
    }
}

/// `ipnet::PrefixLenError`, the error with which `ipnet` refuses a mask.
/// Nothing is assumed of what it holds.
#[verifier::external_type_specification]
#[verifier::external_body]
pub struct ExPrefixLenError(ipnet::PrefixLenError);

/// `ipnet::Ipv4Net::new`: a network is built exactly when the mask has at
/// most 32 bits, and every longer mask is refused.
#[verifier::external_body]
fn check_ipv4_mask_len(octets: [u8; 4], mask_len: u8) -> (r: Result<(), ipnet::PrefixLenError>)
    ensures
        r is Ok <==> mask_len <= 32,
{
    match ipnet::Ipv4Net::new(octets.into(), mask_len) {
        Ok(_) => Ok(()),
        Err(e) => Err(e),
    }
}

/// `ipnet::Ipv6Net::new`: a network is built exactly when the mask has at
/// most 128 bits, and every longer mask is refused.
#[verifier::external_body]
fn check_ipv6_mask_len(octets: [u8; 16], mask_len: u8) -> (r: Result<(), ipnet::PrefixLenError>)
    ensures
        r is Ok <==> mask_len <= 128,
{
    match ipnet::Ipv6Net::new(octets.into(), mask_len) {
        Ok(_) => Ok(()),
        Err(e) => Err(e),
    }
}

/// Decodes a tagged prefix: the address first, then the mask, which must
/// not exceed the width of the address family.
pub fn parse_bgpstream_prefix(prefix: &RawPrefix) -> (r: Result<IpPrefix, BgpStreamError>)
    ensures
        r == prefix_of(*prefix),
        r is Ok ==> r->Ok_0.wf(),
{
    let address = match parse_bgpstream_ip(&prefix.address) {
        Ok(address) => address,
        Err(e) => { return Err(e); },
    };
    let checked = match address {
        IpAddress::V4(octets) => check_ipv4_mask_len(octets, prefix.mask_len),
        IpAddress::V6(octets) => check_ipv6_mask_len(octets, prefix.mask_len),
    };
    match checked {
        Ok(()) => Ok(IpPrefix { address, mask_len: prefix.mask_len }),
        Err(_) => Err(BgpStreamError::InvalidMaskLen),
    }
}

} // verus!
