use vstd::prelude::*;
use crate::lwip::local_ipv4_to_native;

verus! {

/// How one side of the network stack obtains its configuration.
#[derive(Debug, PartialEq, Eq, Clone, Copy, Structural)]
pub enum NetworkConfigurationMode {
    Auto,
    Dhcp,
    Static,
}

impl NetworkConfigurationMode {
    /// The native encoding of this mode.
    pub fn native_code(&self) -> (c: i32)
        ensures
            c == match *self {
                NetworkConfigurationMode::Auto => 0i32,
                NetworkConfigurationMode::Dhcp => 1i32,
                NetworkConfigurationMode::Static => 2i32,
            },
    {
        match self {
            NetworkConfigurationMode::Auto => 0,
            NetworkConfigurationMode::Dhcp => 1,
            NetworkConfigurationMode::Static => 2,
        }
    }
}

impl Default for NetworkConfigurationMode {
    /// Automatic configuration is the default.
    fn default() -> (r: Self)
        ensures
            r == NetworkConfigurationMode::Auto,
    {
        NetworkConfigurationMode::Auto
    }
}

/// The parameter block handed to the native network bring-up,
/// bit-exact with its layout, as plain values.
#[derive(Debug, PartialEq, Eq, Clone, Copy, Structural)]
pub struct NetParameters {
    pub ipv4_mode: i32,
    pub ipv6_mode: i32,
    pub ipv4_ip: u32,
    pub ipv4_gateway: u32,
    pub ipv4_netmask: u32,
    pub ipv4_dns1: u32,
    pub ipv4_dns2: u32,
}

/// Builds the network bring-up parameters; addresses are given as IPv4
/// octets and packed into the native word order.
#[derive(Debug)]
pub struct NetParametersBuilder {
    ipv4_mode: NetworkConfigurationMode,
    ipv6_mode: NetworkConfigurationMode,
    ipv4_ip: u32,
    ipv4_gateway: u32,
    ipv4_netmask: u32,
    ipv4_dns1: u32,
    ipv4_dns2: u32,
}

/// The native word an IPv4 address is packed into.
pub open spec fn spec_ipv4_word(octets: (u8, u8, u8, u8)) -> int {
    octets.0 + octets.1 * 0x100 + octets.2 * 0x10000 + octets.3 * 0x1000000
}

impl NetParametersBuilder {
    pub closed spec fn spec_ipv4_mode(&self) -> NetworkConfigurationMode {
        self.ipv4_mode
    }

    pub closed spec fn spec_ipv6_mode(&self) -> NetworkConfigurationMode {
        self.ipv6_mode
    }

    pub closed spec fn spec_ipv4_ip(&self) -> u32 {
        self.ipv4_ip
    }

    pub closed spec fn spec_ipv4_gateway(&self) -> u32 {
        self.ipv4_gateway
    }

    pub closed spec fn spec_ipv4_netmask(&self) -> u32 {
        self.ipv4_netmask
    }

    pub closed spec fn spec_ipv4_dns1(&self) -> u32 {
        self.ipv4_dns1
    }

    pub closed spec fn spec_ipv4_dns2(&self) -> u32 {
        self.ipv4_dns2
    }

    /// Creates a new builder with default values: automatic
    /// configuration and zeroed addresses.
    pub fn new() -> (r: Self)
        ensures
            r.spec_ipv4_mode() == NetworkConfigurationMode::Auto,
            r.spec_ipv6_mode() == NetworkConfigurationMode::Auto,
            r.spec_ipv4_ip() == 0,
            r.spec_ipv4_gateway() == 0,
            r.spec_ipv4_netmask() == 0,
            r.spec_ipv4_dns1() == 0,
            r.spec_ipv4_dns2() == 0,
    {
        Self {
            ipv4_mode: NetworkConfigurationMode::Auto,
            ipv6_mode: NetworkConfigurationMode::Auto,
            ipv4_ip: 0,
            ipv4_gateway: 0,
            ipv4_netmask: 0,
            ipv4_dns1: 0,
            ipv4_dns2: 0,
        }
    }

    /// Sets the IPv4 mode.
    pub fn ipv4_mode(self, mode: NetworkConfigurationMode) -> (r: Self)
        ensures
            r.spec_ipv4_mode() == mode,
            r.spec_ipv6_mode() == self.spec_ipv6_mode(),
            r.spec_ipv4_ip() == self.spec_ipv4_ip(),
            r.spec_ipv4_gateway() == self.spec_ipv4_gateway(),
            r.spec_ipv4_netmask() == self.spec_ipv4_netmask(),
            r.spec_ipv4_dns1() == self.spec_ipv4_dns1(),
            r.spec_ipv4_dns2() == self.spec_ipv4_dns2(),
    {
        Self { ipv4_mode: mode, ..self }
    }

    /// Sets the IPv6 mode. IPv6 is not currently configured by the
    /// native layer; this is a placeholder.
    pub fn ipv6_mode(self, mode: NetworkConfigurationMode) -> (r: Self)
        ensures
            r.spec_ipv6_mode() == mode,
            r.spec_ipv4_mode() == self.spec_ipv4_mode(),
            r.spec_ipv4_ip() == self.spec_ipv4_ip(),
            r.spec_ipv4_gateway() == self.spec_ipv4_gateway(),
            r.spec_ipv4_netmask() == self.spec_ipv4_netmask(),
            r.spec_ipv4_dns1() == self.spec_ipv4_dns1(),
            r.spec_ipv4_dns2() == self.spec_ipv4_dns2(),
    {
        Self { ipv6_mode: mode, ..self }
    }

    /// Sets the IPv4 address.
    pub fn ipv4_ip(self, ip: (u8, u8, u8, u8)) -> (r: Self)
        ensures
            r.spec_ipv4_ip() == spec_ipv4_word(ip),
            r.spec_ipv4_mode() == self.spec_ipv4_mode(),
            r.spec_ipv6_mode() == self.spec_ipv6_mode(),
            r.spec_ipv4_gateway() == self.spec_ipv4_gateway(),
            r.spec_ipv4_netmask() == self.spec_ipv4_netmask(),
            r.spec_ipv4_dns1() == self.spec_ipv4_dns1(),
            r.spec_ipv4_dns2() == self.spec_ipv4_dns2(),
    {
        Self { ipv4_ip: local_ipv4_to_native(ip), ..self }
    }

    /// Sets the IPv4 gateway.
    pub fn ipv4_gateway(self, gateway: (u8, u8, u8, u8)) -> (r: Self)
        ensures
            r.spec_ipv4_gateway() == spec_ipv4_word(gateway),
            r.spec_ipv4_mode() == self.spec_ipv4_mode(),
            r.spec_ipv6_mode() == self.spec_ipv6_mode(),
            r.spec_ipv4_ip() == self.spec_ipv4_ip(),
            r.spec_ipv4_netmask() == self.spec_ipv4_netmask(),
            r.spec_ipv4_dns1() == self.spec_ipv4_dns1(),
            r.spec_ipv4_dns2() == self.spec_ipv4_dns2(),
    {
        Self { ipv4_gateway: local_ipv4_to_native(gateway), ..self }
    }

    /// Sets the IPv4 netmask.
    pub fn ipv4_netmask(self, netmask: (u8, u8, u8, u8)) -> (r: Self)
        ensures
            r.spec_ipv4_netmask() == spec_ipv4_word(netmask),
            r.spec_ipv4_mode() == self.spec_ipv4_mode(),
            r.spec_ipv6_mode() == self.spec_ipv6_mode(),
            r.spec_ipv4_ip() == self.spec_ipv4_ip(),
            r.spec_ipv4_gateway() == self.spec_ipv4_gateway(),
            r.spec_ipv4_dns1() == self.spec_ipv4_dns1(),
            r.spec_ipv4_dns2() == self.spec_ipv4_dns2(),
    {
        Self { ipv4_netmask: local_ipv4_to_native(netmask), ..self }
    }

    /// Sets the primary IPv4 DNS server.
    pub fn ipv4_dns1(self, dns1: (u8, u8, u8, u8)) -> (r: Self)
        ensures
            r.spec_ipv4_dns1() == spec_ipv4_word(dns1),
            r.spec_ipv4_mode() == self.spec_ipv4_mode(),
            r.spec_ipv6_mode() == self.spec_ipv6_mode(),
            r.spec_ipv4_ip() == self.spec_ipv4_ip(),
            r.spec_ipv4_gateway() == self.spec_ipv4_gateway(),
            r.spec_ipv4_netmask() == self.spec_ipv4_netmask(),
            r.spec_ipv4_dns2() == self.spec_ipv4_dns2(),
    {
        Self { ipv4_dns1: local_ipv4_to_native(dns1), ..self }
    }

    /// Sets the secondary IPv4 DNS server.
    pub fn ipv4_dns2(self, dns2: (u8, u8, u8, u8)) -> (r: Self)
        ensures
            r.spec_ipv4_dns2() == spec_ipv4_word(dns2),
            r.spec_ipv4_mode() == self.spec_ipv4_mode(),
            r.spec_ipv6_mode() == self.spec_ipv6_mode(),
            r.spec_ipv4_ip() == self.spec_ipv4_ip(),
            r.spec_ipv4_gateway() == self.spec_ipv4_gateway(),
            r.spec_ipv4_netmask() == self.spec_ipv4_netmask(),
            r.spec_ipv4_dns1() == self.spec_ipv4_dns1(),
    {
        Self { ipv4_dns2: local_ipv4_to_native(dns2), ..self }
    }

    /// Builds the native parameter block.
    pub fn build(self) -> (r: NetParameters)
        ensures
            r.ipv4_mode == match self.spec_ipv4_mode() {
                NetworkConfigurationMode::Auto => 0i32,
                NetworkConfigurationMode::Dhcp => 1i32,
                NetworkConfigurationMode::Static => 2i32,
            },
            r.ipv6_mode == match self.spec_ipv6_mode() {
                NetworkConfigurationMode::Auto => 0i32,
                NetworkConfigurationMode::Dhcp => 1i32,
                NetworkConfigurationMode::Static => 2i32,
            },
            r.ipv4_ip == self.spec_ipv4_ip(),
            r.ipv4_gateway == self.spec_ipv4_gateway(),
            r.ipv4_netmask == self.spec_ipv4_netmask(),
            r.ipv4_dns1 == self.spec_ipv4_dns1(),
            r.ipv4_dns2 == self.spec_ipv4_dns2(),
    {
        NetParameters {
            ipv4_mode: self.ipv4_mode.native_code(),
            ipv6_mode: self.ipv6_mode.native_code(),
            ipv4_ip: self.ipv4_ip,
            ipv4_gateway: self.ipv4_gateway,
            ipv4_netmask: self.ipv4_netmask,
            ipv4_dns1: self.ipv4_dns1,
            ipv4_dns2: self.ipv4_dns2,
        }
    }
}

} // verus!
