use vstd::prelude::*;
use vstd::string::*;
use crate::errors::{Errors, Response, is_single_field_error};
use crate::mac::{
    MacAddress,
    hex_digit_count,
    hex_string_of,
    mac_field,
    mac_octets_of,
    utf8_len,
    well_formed_mac,
    validate_mac_address,
    wrong_octet_count,
    bad_octet_content,
};

verus! {

/// An IPv4 address as its four octets, most significant first.
#[derive(Clone, Copy, PartialEq, Eq, Debug, Structural)]
pub struct Ipv4Address {
    pub a: u8,
    pub b: u8,
    pub c: u8,
    pub d: u8,
}

impl Ipv4Address {
    pub fn new(a: u8, b: u8, c: u8, d: u8) -> (r: Ipv4Address)
        ensures
            r == (Ipv4Address { a, b, c, d }),
    {
        Ipv4Address { a, b, c, d }
    }
}

/// A device known to the controller.
#[derive(Debug)]
pub struct Device {
    hostname: String,
    mac_address: String,
    ip_address: Ipv4Address,
}

/// The hostname given to a device that is looked up by its address alone.
pub open spec fn placeholder_hostname() -> Seq<char> {
    "fake"@
}

impl Device {
    pub closed spec fn spec_hostname(&self) -> Seq<char> {
        self.hostname@
    }

    pub closed spec fn spec_mac_address(&self) -> Seq<char> {
        self.mac_address@
    }

    pub closed spec fn spec_ip_address(&self) -> Ipv4Address {
        self.ip_address
    }

    /// Looks a device up by its hardware address. No store stands behind the
    /// lookup yet: every address resolves to one fixed record at 1.1.1.1.
    pub fn from_mac_address(mac_address: MacAddress) -> (r: Device)
        ensures
            r.spec_hostname() == placeholder_hostname(),
            r.spec_mac_address() == hex_string_of(mac_address.octets@),
            r.spec_ip_address() == (Ipv4Address { a: 1, b: 1, c: 1, d: 1 }),
    {
        Device {
            hostname: String::from_str("fake"),
            mac_address: mac_address.to_hex_string(),
            ip_address: Ipv4Address::new(1, 1, 1, 1),
        }
    }

    /// A device with a hostname of at least three characters.
    pub fn new(hostname: &str, mac_address: MacAddress, ip_address: Ipv4Address) -> (r: Device)
        requires
            hostname@.len() >= 3,
        ensures
            r.spec_hostname() == hostname@,
            r.spec_mac_address() == hex_string_of(mac_address.octets@),
            r.spec_ip_address() == ip_address,
    {
        Device {
            hostname: String::from_str(hostname),
            mac_address: mac_address.to_hex_string(),
            ip_address,
        }
    }

    pub fn get_hostname(&self) -> (r: &String)
        ensures
            r@ == self.spec_hostname(),
    {
        &self.hostname
    }

    pub fn get_mac_address(&self) -> (r: &String)
        ensures
            r@ == self.spec_mac_address(),
    {
        &self.mac_address
    }

    pub fn get_ip_address(&self) -> (r: Ipv4Address)
        ensures
            r == self.spec_ip_address(),
    {
        self.ip_address
    }
}

/// Resolves a device from the MAC address in a request path. A malformed
/// address is a validation error on `macAddress` and never reaches the lookup.
pub fn get_device_by_mac(mac_address: &str) -> (r: Result<Response<Device>, Errors>)
    ensures
        well_formed_mac(mac_address@) ==> (r matches Ok(resp) && resp.data.spec_mac_address()
            == hex_string_of(mac_octets_of(mac_address@)) && resp.data.spec_hostname()
            == placeholder_hostname()),
        !(11 <= utf8_len(mac_address@) <= 17) ==> r is Err && is_single_field_error(
            r->Err_0,
            mac_field(),
            "length"@,
        ),
        wrong_octet_count(mac_address@) ==> r is Err && is_single_field_error(
            r->Err_0,
            mac_field(),
            "length"@,
        ),
        11 <= utf8_len(mac_address@) <= 17 && bad_octet_content(mac_address@) ==> r is Err
            && is_single_field_error(r->Err_0, mac_field(), "bytes"@),
        hex_digit_count(mac_address@) < 6 ==> r is Err,
        r is Err ==> (is_single_field_error(r->Err_0, mac_field(), "length"@)
            || is_single_field_error(r->Err_0, mac_field(), "bytes"@)),
{
    match validate_mac_address(mac_address) {
        Ok(mac) => Ok(Response { data: Device::from_mac_address(mac) }),
        Err(error) => Err(error),
    }
}

} // verus!
