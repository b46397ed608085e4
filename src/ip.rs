//! IP addresses, networks and ranges, and the classification of an address as
//! global, private or loopback.

use vstd::prelude::*;

use crate::ranges::Interval;

verus! {

/// An IP address: an IPv4 address as its 32-bit value, an IPv6 address as its
/// 128-bit value. Every IPv4 address orders before every IPv6 address.
#[derive(Clone, Copy, Debug, PartialEq, Eq, Structural, Hash, PartialOrd, Ord)]
pub enum IpAddr {
    /// An IPv4 address.
    V4(u32),
    /// An IPv6 address.
    V6(u128),
}

/// The number of IPv4 addresses; IPv6 keys start there.
pub open spec fn v4_space() -> int {
    0x1_0000_0000
}

/// Returns true when `lo <= x <= hi`.
pub fn within_v4(x: u32, lo: u32, hi: u32) -> (r: bool)
    ensures
        r == (lo <= x && x <= hi),
{
    lo <= x && x <= hi
}

/// Returns true when `lo <= x <= hi`.
pub fn within_v6(x: u128, lo: u128, hi: u128) -> (r: bool)
    ensures
        r == (lo <= x && x <= hi),
{
    lo <= x && x <= hi
}

// IPv4 blocks.

pub open spec fn v4_private_use(x: u32) -> bool {
    (0x0A00_0000 <= x <= 0x0AFF_FFFF) || (0xAC10_0000 <= x <= 0xAC1F_FFFF) || (0xC0A8_0000 <= x
        <= 0xC0A8_FFFF)
}

pub open spec fn v4_loopback(x: u32) -> bool {
    0x7F00_0000 <= x <= 0x7FFF_FFFF
}

pub open spec fn v4_link_local(x: u32) -> bool {
    0xA9FE_0000 <= x <= 0xA9FE_FFFF
}

pub open spec fn v4_documentation(x: u32) -> bool {
    (0xC000_0200 <= x <= 0xC000_02FF) || (0xC633_6400 <= x <= 0xC633_64FF) || (0xCB00_7100 <= x
        <= 0xCB00_71FF)
}

pub open spec fn v4_reserved(x: u32) -> bool {
    0xF000_0000 <= x <= 0xFFFF_FFFE
}

/// Blocks that are neither globally routable nor private: "this network",
/// shared address space, protocol assignments, documentation, benchmarking,
/// multicast and the broadcast address.
pub open spec fn v4_special(x: u32) -> bool {
    v4_documentation(x) || (x <= 0x00FF_FFFF) || (0x6440_0000 <= x <= 0x647F_FFFF) || ((0xC000_0000 <= x
        <= 0xC000_00FF) && x != 0xC000_0009 && x != 0xC000_000A) || (0xC612_0000 <= x
        <= 0xC613_FFFF) || (0xE000_0000 <= x <= 0xEFFF_FFFF) || x == 0xFFFF_FFFF
}

pub open spec fn v4_private(x: u32) -> bool {
    v4_private_use(x) || v4_loopback(x) || v4_link_local(x) || v4_reserved(x)
}

pub open spec fn v4_global(x: u32) -> bool {
    !v4_private(x) && !v4_special(x)
}

// IPv6 blocks.

pub open spec fn v6_loopback(x: u128) -> bool {
    x == 1
}

pub open spec fn v6_unique_local(x: u128) -> bool {
    0xFC00_0000_0000_0000_0000_0000_0000_0000 <= x <= 0xFDFF_FFFF_FFFF_FFFF_FFFF_FFFF_FFFF_FFFF
}

pub open spec fn v6_link_local(x: u128) -> bool {
    0xFE80_0000_0000_0000_0000_0000_0000_0000 <= x <= 0xFEBF_FFFF_FFFF_FFFF_FFFF_FFFF_FFFF_FFFF
}

/// Blocks that are neither globally routable nor private: the unspecified
/// address, IPv4-mapped addresses, the IPv4/IPv6 translation prefix, the
/// discard-only block, IETF protocol assignments (which hold the documentation
/// prefix) and multicast.
pub open spec fn v6_special(x: u128) -> bool {
    x == 0 || (0xFFFF_0000_0000 <= x <= 0xFFFF_FFFF_FFFF) || (0x0064_FF9B_0001_0000_0000_0000_0000_0000
        <= x <= 0x0064_FF9B_0001_FFFF_FFFF_FFFF_FFFF_FFFF) || (0x0100_0000_0000_0000_0000_0000_0000_0000
        <= x <= 0x0100_0000_0000_0000_FFFF_FFFF_FFFF_FFFF) || (0x2001_0000_0000_0000_0000_0000_0000_0000
        <= x <= 0x2001_01FF_FFFF_FFFF_FFFF_FFFF_FFFF_FFFF) || (0x2001_0DB8_0000_0000_0000_0000_0000_0000
        <= x <= 0x2001_0DB8_FFFF_FFFF_FFFF_FFFF_FFFF_FFFF) || (0xFF00_0000_0000_0000_0000_0000_0000_0000
        <= x)
}

pub open spec fn v6_private(x: u128) -> bool {
    v6_unique_local(x) || v6_link_local(x) || v6_loopback(x)
}

pub open spec fn v6_global(x: u128) -> bool {
    !v6_private(x) && !v6_special(x)
}

impl IpAddr {
    /// The position of the address in the order of all addresses.
    pub open spec fn key(self) -> int {
        match self {
            IpAddr::V4(x) => x as int,
            IpAddr::V6(x) => v4_space() + x,
        }
    }

    pub open spec fn spec_is_global(self) -> bool {
        match self {
            IpAddr::V4(x) => v4_global(x),
            IpAddr::V6(x) => v6_global(x),
        }
    }

    pub open spec fn spec_is_private(self) -> bool {
        match self {
            IpAddr::V4(x) => v4_private(x),
            IpAddr::V6(x) => v6_private(x),
        }
    }

    pub open spec fn spec_is_loopback(self) -> bool {
        match self {
            IpAddr::V4(x) => v4_loopback(x),
            IpAddr::V6(x) => v6_loopback(x),
        }
    }

    pub open spec fn same_family(self, other: IpAddr) -> bool {
        (self is V4 && other is V4) || (self is V6 && other is V6)
    }

    /// The IPv4 address `a.b.c.d`.
    pub fn v4(a: u8, b: u8, c: u8, d: u8) -> (r: IpAddr)
        ensures
            r == IpAddr::V4((a * 0x100_0000 + b * 0x1_0000 + c * 0x100 + d) as u32),
    {
        IpAddr::V4((a as u32) * 0x100_0000 + (b as u32) * 0x1_0000 + (c as u32) * 0x100 + (d as u32))
    }

    /// The IPv6 address with the eight 16-bit segments `s0:s1:...:s7`.
    pub fn v6(s0: u16, s1: u16, s2: u16, s3: u16, s4: u16, s5: u16, s6: u16, s7: u16) -> (r: IpAddr)
        ensures
            r == IpAddr::V6(
                (s0 * 0x1_0000_0000_0000_0000_0000_0000_0000 + s1 * 0x1_0000_0000_0000_0000_0000_0000
                    + s2 * 0x1_0000_0000_0000_0000_0000 + s3 * 0x1_0000_0000_0000_0000 + s4
                    * 0x1_0000_0000_0000 + s5 * 0x1_0000_0000 + s6 * 0x1_0000 + s7) as u128,
            ),
    {
        IpAddr::V6(
            (s0 as u128) * 0x1_0000_0000_0000_0000_0000_0000_0000 + (s1 as u128)
                * 0x1_0000_0000_0000_0000_0000_0000 + (s2 as u128) * 0x1_0000_0000_0000_0000_0000
                + (s3 as u128) * 0x1_0000_0000_0000_0000 + (s4 as u128) * 0x1_0000_0000_0000
                + (s5 as u128) * 0x1_0000_0000 + (s6 as u128) * 0x1_0000 + (s7 as u128),
        )
    }

    /// Returns true when `self` orders before or equal to `other`.
    pub fn le(&self, other: &IpAddr) -> (r: bool)
        ensures
            r == (self.key() <= other.key()),
    {
        match (*self, *other) {
            (IpAddr::V4(a), IpAddr::V4(b)) => a <= b,
            (IpAddr::V6(a), IpAddr::V6(b)) => a <= b,
            (IpAddr::V4(_), IpAddr::V6(_)) => true,
            (IpAddr::V6(_), IpAddr::V4(_)) => false,
        }
    }

    /// Returns true when both addresses are IPv4 or both are IPv6.
    pub fn is_same_family(&self, other: &IpAddr) -> (r: bool)
        ensures
            r == self.same_family(*other),
    {
        match (*self, *other) {
            (IpAddr::V4(_), IpAddr::V4(_)) => true,
            (IpAddr::V6(_), IpAddr::V6(_)) => true,
            _ => false,
        }
    }
}

/// Returns true when the address is routable on the public Internet.
pub fn is_global_ip(ip: &IpAddr) -> (r: bool)
    ensures
        r == ip.spec_is_global(),
{
    !is_private_ip(ip) && !is_special_ip(ip)
}

fn is_special_ip(ip: &IpAddr) -> (r: bool)
    ensures
        r == match *ip {
            IpAddr::V4(x) => v4_special(x),
            IpAddr::V6(x) => v6_special(x),
        },
{
    match *ip {
        IpAddr::V4(x) => within_v4(x, 0xC000_0200, 0xC000_02FF) || within_v4(
            x,
            0xC633_6400,
            0xC633_64FF,
        ) || within_v4(x, 0xCB00_7100, 0xCB00_71FF) || x <= 0x00FF_FFFF || within_v4(
            x,
            0x6440_0000,
            0x647F_FFFF,
        ) || (within_v4(
            x,
            0xC000_0000,
            0xC000_00FF,
        ) && x != 0xC000_0009 && x != 0xC000_000A) || within_v4(x, 0xC612_0000, 0xC613_FFFF)
            || within_v4(x, 0xE000_0000, 0xEFFF_FFFF) || x == 0xFFFF_FFFF,
        IpAddr::V6(x) => x == 0 || within_v6(x, 0xFFFF_0000_0000, 0xFFFF_FFFF_FFFF) || within_v6(
            x,
            0x0064_FF9B_0001_0000_0000_0000_0000_0000,
            0x0064_FF9B_0001_FFFF_FFFF_FFFF_FFFF_FFFF,
        ) || within_v6(
            x,
            0x0100_0000_0000_0000_0000_0000_0000_0000,
            0x0100_0000_0000_0000_FFFF_FFFF_FFFF_FFFF,
        ) || within_v6(
            x,
            0x2001_0000_0000_0000_0000_0000_0000_0000,
            0x2001_01FF_FFFF_FFFF_FFFF_FFFF_FFFF_FFFF,
        ) || within_v6(
            x,
            0x2001_0DB8_0000_0000_0000_0000_0000_0000,
            0x2001_0DB8_FFFF_FFFF_FFFF_FFFF_FFFF_FFFF,
        ) || 0xFF00_0000_0000_0000_0000_0000_0000_0000 <= x,
    }
}

/// Returns true when the address is in private-use space: the RFC 1918
/// blocks, link-local, loopback and reserved IPv4 blocks, and
/// the unique-local, link-local and loopback IPv6 blocks.
pub fn is_private_ip(ip: &IpAddr) -> (r: bool)
    ensures
        r == ip.spec_is_private(),
{
    match *ip {
        IpAddr::V4(x) => within_v4(x, 0x0A00_0000, 0x0AFF_FFFF) || within_v4(
            x,
            0xAC10_0000,
            0xAC1F_FFFF,
        ) || within_v4(x, 0xC0A8_0000, 0xC0A8_FFFF) || within_v4(x, 0x7F00_0000, 0x7FFF_FFFF)
            || within_v4(x, 0xA9FE_0000, 0xA9FE_FFFF) || within_v4(x, 0xF000_0000, 0xFFFF_FFFE),
        IpAddr::V6(x) => within_v6(
            x,
            0xFC00_0000_0000_0000_0000_0000_0000_0000,
            0xFDFF_FFFF_FFFF_FFFF_FFFF_FFFF_FFFF_FFFF,
        ) || within_v6(
            x,
            0xFE80_0000_0000_0000_0000_0000_0000_0000,
            0xFEBF_FFFF_FFFF_FFFF_FFFF_FFFF_FFFF_FFFF,
        ) || x == 1,
    }
}

/// Returns true when the address is a loopback address.
pub fn is_loopback_ip(ip: &IpAddr) -> (r: bool)
    ensures
        r == ip.spec_is_loopback(),
{
    match *ip {
        IpAddr::V4(x) => within_v4(x, 0x7F00_0000, 0x7FFF_FFFF),
        IpAddr::V6(x) => x == 1,
    }
}

/// A socket address: an IP address and a port.
#[derive(Clone, Copy, Debug, PartialEq, Eq, Structural, Hash)]
pub struct SocketAddr {
    pub ip: IpAddr,
    pub port: u16,
}

impl SocketAddr {
    pub fn new(ip: IpAddr, port: u16) -> (r: SocketAddr)
        ensures
            r == (SocketAddr { ip, port }),
    {
        SocketAddr { ip, port }
    }
}

/// An inclusive range of IP addresses, from `start` to `end`.
#[derive(Clone, Copy, Debug, PartialEq, Eq, Structural, Hash)]
pub struct IpRange {
    pub start: IpAddr,
    pub end: IpAddr,
}

impl IpRange {
    pub fn new(start: IpAddr, end: IpAddr) -> (r: IpRange)
        ensures
            r == (IpRange { start, end }),
    {
        IpRange { start, end }
    }

    /// A range is well formed when its bounds are of one family and in order.
    pub open spec fn well_formed(self) -> bool {
        self.start.same_family(self.end) && self.start.key() <= self.end.key()
    }

    pub open spec fn spec_contains(self, ip: IpAddr) -> bool {
        self.start.key() <= ip.key() <= self.end.key()
    }

    /// Returns true when the address lies in the range.
    pub fn contains(&self, ip: &IpAddr) -> (r: bool)
        ensures
            r == self.spec_contains(*ip),
    {
        self.start.le(ip) && ip.le(&self.end)
    }
}

impl Interval for IpRange {
    open spec fn lower(&self) -> int {
        self.start.key()
    }

    open spec fn upper(&self) -> int {
        self.end.key()
    }

    fn starts_by_end_of(&self, other: &IpRange) -> (r: bool) {
        self.start.le(&other.end)
    }

    fn same_as(&self, other: &IpRange) -> (r: bool) {
        self.start == other.start && self.end == other.end
    }
}


/// Returns the range when it is well formed.
pub fn validate_ip_range(range: IpRange) -> (r: Option<IpRange>)
    ensures
        r == (if range.well_formed() { Some(range) } else { None::<IpRange> }),
{
    if range.start.is_same_family(&range.end) && range.start.le(&range.end) {
        Some(range)
    } else {
        None
    }
}

/// Host bits of an IPv4 network with the given prefix length.
pub open spec fn v4_host_mask(prefix_len: u8) -> u32 {
    if prefix_len >= 32 {
        0
    } else {
        0xFFFF_FFFFu32 >> (prefix_len as u32)
    }
}

/// Host bits of an IPv6 network with the given prefix length.
pub open spec fn v6_host_mask(prefix_len: u8) -> u128 {
    if prefix_len >= 128 {
        0
    } else {
        0xFFFF_FFFF_FFFF_FFFF_FFFF_FFFF_FFFF_FFFFu128 >> (prefix_len as u128)
    }
}

/// An IP network: an address and the length of its network prefix.
#[derive(Clone, Copy, Debug, PartialEq, Eq, Structural, Hash)]
pub struct IpNet {
    addr: IpAddr,
    prefix_len: u8,
}

impl IpNet {
    pub open spec fn max_prefix_len(addr: IpAddr) -> int {
        match addr {
            IpAddr::V4(_) => 32,
            IpAddr::V6(_) => 128,
        }
    }

    pub closed spec fn spec_addr(self) -> IpAddr {
        self.addr
    }

    pub closed spec fn spec_prefix_len(self) -> u8 {
        self.prefix_len
    }

    /// The network of `addr` with the given prefix length, if the length fits
    /// the address family.
    pub fn new(addr: IpAddr, prefix_len: u8) -> (r: Option<IpNet>)
        ensures
            r is Some <==> prefix_len <= Self::max_prefix_len(addr),
            r matches Some(n) ==> n.spec_addr() == addr && n.spec_prefix_len() == prefix_len,
    {
        let max: u8 = match addr {
            IpAddr::V4(_) => 32,
            IpAddr::V6(_) => 128,
        };
        if prefix_len <= max {
            Some(IpNet { addr, prefix_len })
        } else {
            None
        }
    }

    pub fn addr(&self) -> (r: IpAddr)
        ensures
            r == self.spec_addr(),
    {
        self.addr
    }

    pub fn prefix_len(&self) -> (r: u8)
        ensures
            r == self.spec_prefix_len(),
    {
        self.prefix_len
    }

    /// The first address of the network: the address with its host bits clear.
    pub open spec fn spec_network(self) -> IpAddr {
        match self.spec_addr() {
            IpAddr::V4(x) => IpAddr::V4(x & !v4_host_mask(self.spec_prefix_len())),
            IpAddr::V6(x) => IpAddr::V6(x & !v6_host_mask(self.spec_prefix_len())),
        }
    }

    /// The last address of the network: the address with its host bits set.
    pub open spec fn spec_broadcast(self) -> IpAddr {
        match self.spec_addr() {
            IpAddr::V4(x) => IpAddr::V4(x | v4_host_mask(self.spec_prefix_len())),
            IpAddr::V6(x) => IpAddr::V6(x | v6_host_mask(self.spec_prefix_len())),
        }
    }

    pub fn network(&self) -> (r: IpAddr)
        ensures
            r == self.spec_network(),
    {
        match self.addr {
            IpAddr::V4(x) => {
                let mask: u32 = if self.prefix_len >= 32 {
                    0
                } else {
                    0xFFFF_FFFFu32 >> (self.prefix_len as u32)
                };
                IpAddr::V4(x & !mask)
            },
            IpAddr::V6(x) => {
                let mask: u128 = if self.prefix_len >= 128 {
                    0
                } else {
                    0xFFFF_FFFF_FFFF_FFFF_FFFF_FFFF_FFFF_FFFFu128 >> (self.prefix_len as u128)
                };
                IpAddr::V6(x & !mask)
            },
        }
    }

    pub fn broadcast(&self) -> (r: IpAddr)
        ensures
            r == self.spec_broadcast(),
    {
        match self.addr {
            IpAddr::V4(x) => {
                let mask: u32 = if self.prefix_len >= 32 {
                    0
                } else {
                    0xFFFF_FFFFu32 >> (self.prefix_len as u32)
                };
                IpAddr::V4(x | mask)
            },
            IpAddr::V6(x) => {
                let mask: u128 = if self.prefix_len >= 128 {
                    0
                } else {
                    0xFFFF_FFFF_FFFF_FFFF_FFFF_FFFF_FFFF_FFFFu128 >> (self.prefix_len as u128)
                };
                IpAddr::V6(x | mask)
            },
        }
    }
}

/// A value that denotes an inclusive range of IP addresses.
pub trait IntoIpRange: Sized {
    /// The range the value denotes, if it denotes a well-formed one.
    spec fn spec_range(&self) -> Option<IpRange>;

    fn into_range(self) -> (r: Option<IpRange>)
        ensures
            r == self.spec_range(),
            r matches Some(range) ==> range.well_formed(),
    ;
}

impl IntoIpRange for IpNet {
    open spec fn spec_range(&self) -> Option<IpRange> {
        Some(IpRange { start: self.spec_network(), end: self.spec_broadcast() })
    }

    fn into_range(self) -> (r: Option<IpRange>) {
        let start = self.network();
        let end = self.broadcast();
        match self.addr {
            IpAddr::V4(x) => {
                proof {
                    let m = v4_host_mask(self.prefix_len);
                    assert((x & !m) <= (x | m)) by (bit_vector);
                }
            },
            IpAddr::V6(x) => {
                proof {
                    let m = v6_host_mask(self.prefix_len);
                    assert((x & !m) <= (x | m)) by (bit_vector);
                }
            },
        }
        Some(IpRange { start, end })
    }
}

impl IntoIpRange for IpRange {
    open spec fn spec_range(&self) -> Option<IpRange> {
        if self.well_formed() {
            Some(*self)
        } else {
            None
        }
    }

    fn into_range(self) -> (r: Option<IpRange>) {
        validate_ip_range(self)
    }
}

impl IntoIpRange for (IpAddr, IpAddr) {
    open spec fn spec_range(&self) -> Option<IpRange> {
        let range = IpRange { start: self.0, end: self.1 };
        if range.well_formed() {
            Some(range)
        } else {
            None
        }
    }

    fn into_range(self) -> (r: Option<IpRange>) {
        validate_ip_range(IpRange { start: self.0, end: self.1 })
    }
}

} // verus!
