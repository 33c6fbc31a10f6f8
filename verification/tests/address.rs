use bgpstream::address::{
    parse_bgpstream_ip, parse_bgpstream_prefix, IpAddress, IpPrefix, RawAddress, RawPrefix,
};
use bgpstream::BgpStreamError;

fn raw_v4(a: u8, b: u8, c: u8, d: u8) -> RawAddress {
    let mut octets = [0u8; 16];
    octets[0] = a;
    octets[1] = b;
    octets[2] = c;
    octets[3] = d;
    RawAddress { version: 4, octets }
}

fn raw_v6_loopback() -> RawAddress {
    let mut octets = [0u8; 16];
    octets[15] = 1;
    RawAddress { version: 6, octets }
}

#[test]
fn ipv4_address_is_read_from_the_first_four_bytes() {
    assert_eq!(parse_bgpstream_ip(&raw_v4(192, 0, 2, 1)), Ok(IpAddress::V4([192, 0, 2, 1])));
}

#[test]
fn ipv6_loopback_is_decoded() {
    let mut expected = [0u8; 16];
    expected[15] = 1;
    assert_eq!(parse_bgpstream_ip(&raw_v6_loopback()), Ok(IpAddress::V6(expected)));
}

#[test]
fn unknown_version_tag_is_an_invalid_address() {
    let mut raw = raw_v4(192, 0, 2, 1);
    for version in [0u8, 1, 2, 3, 5, 7, 10, 255] {
        raw.version = version;
        assert_eq!(parse_bgpstream_ip(&raw), Err(BgpStreamError::InvalidIpAddress));
    }
}

#[test]
fn ipv4_prefix_with_mask_24_is_decoded() {
    let raw = RawPrefix { address: raw_v4(192, 0, 2, 0), mask_len: 24 };
    assert_eq!(
        parse_bgpstream_prefix(&raw),
        Ok(IpPrefix { address: IpAddress::V4([192, 0, 2, 0]), mask_len: 24 })
    );
}

#[test]
fn ipv4_mask_bounds() {
    let ok = RawPrefix { address: raw_v4(192, 0, 2, 0), mask_len: 32 };
    assert!(parse_bgpstream_prefix(&ok).is_ok());
    let bad = RawPrefix { address: raw_v4(192, 0, 2, 0), mask_len: 33 };
    assert_eq!(parse_bgpstream_prefix(&bad), Err(BgpStreamError::InvalidMaskLen));
}

#[test]
fn ipv6_mask_bounds() {
    let ok = RawPrefix { address: raw_v6_loopback(), mask_len: 128 };
    assert_eq!(parse_bgpstream_prefix(&ok).map(|p| p.mask_len), Ok(128));
    let bad = RawPrefix { address: raw_v6_loopback(), mask_len: 129 };
    assert_eq!(parse_bgpstream_prefix(&bad), Err(BgpStreamError::InvalidMaskLen));
}

#[test]
fn prefix_with_unknown_version_fails_on_the_address_first() {
    let mut address = raw_v4(192, 0, 2, 0);
    address.version = 9;
    let raw = RawPrefix { address, mask_len: 200 };
    assert_eq!(parse_bgpstream_prefix(&raw), Err(BgpStreamError::InvalidIpAddress));
}
