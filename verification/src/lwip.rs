use vstd::prelude::*;

pub mod netconn;
pub mod pbuf;

verus! {

/// Reads the four octets of an IPv4 address out of the native word,
/// in dotted order: the first octet sits in the word's lowest byte.
pub fn native_ipv4_to_local(addr: u32) -> (octets: (u8, u8, u8, u8))
    ensures
        octets.0 == addr % 256,
        octets.1 == (addr / 0x100) % 256,
        octets.2 == (addr / 0x10000) % 256,
        octets.3 == (addr / 0x1000000) % 256,
{
    let o0: u8 = (addr & 0xFF) as u8;
    let o1: u8 = ((addr >> 8) & 0xFF) as u8;
    let o2: u8 = ((addr >> 16) & 0xFF) as u8;
    let o3: u8 = ((addr >> 24) & 0xFF) as u8;
    proof {
        assert(addr & 0xFF == addr % 256) by (bit_vector);
        assert((addr >> 8) & 0xFF == (addr / 0x100) % 256) by (bit_vector);
        assert((addr >> 16) & 0xFF == (addr / 0x10000) % 256) by (bit_vector);
        assert((addr >> 24) & 0xFF == (addr / 0x1000000) % 256) by (bit_vector);
    }
    (o0, o1, o2, o3)
}

/// Packs four IPv4 octets into the native little-endian word.
pub fn local_ipv4_to_native(octets: (u8, u8, u8, u8)) -> (addr: u32)
    ensures
        addr == octets.0 + octets.1 * 0x100 + octets.2 * 0x10000 + octets.3 * 0x1000000,
{
    octets.0 as u32 + octets.1 as u32 * 0x100 + octets.2 as u32 * 0x10000 + octets.3 as u32
        * 0x1000000
}

} // verus!
