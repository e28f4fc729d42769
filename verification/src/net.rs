//! Internet addresses as plain values.

use vstd::prelude::*;

verus! {

/// An IP address, by its octets in network order.
#[derive(Clone, Copy, Debug, PartialEq, Eq)]
pub enum IpAddr {
    V4([u8; 4]),
    V6([u8; 16]),
}

/// An IP address with a port. The scope is that of a link-local IPv6 address, else 0.
#[derive(Clone, Copy, Debug, PartialEq, Eq)]
pub struct SocketAddr {
    pub ip: IpAddr,
    pub port: u16,
    pub scope_id: u32,
}

/// The address `0.0.0.0`.
pub open spec fn unspecified_v4() -> IpAddr {
    IpAddr::V4([0u8, 0, 0, 0])
}

/// The address `::`.
pub open spec fn unspecified_v6() -> IpAddr {
    IpAddr::V6([0u8, 0, 0, 0, 0, 0, 0, 0, 0, 0, 0, 0, 0, 0, 0, 0])
}

/// The address `0.0.0.0`.
pub fn any_v4() -> (r: IpAddr)
    ensures
        r == unspecified_v4(),
{
    IpAddr::V4([0u8, 0, 0, 0])
}

/// The address `::`.
pub fn any_v6() -> (r: IpAddr)
    ensures
        r == unspecified_v6(),
{
    IpAddr::V6([0u8, 0, 0, 0, 0, 0, 0, 0, 0, 0, 0, 0, 0, 0, 0, 0])
}

impl SocketAddr {
    /// The socket address with this address and port, and no scope.
    pub open spec fn spec_new(ip: IpAddr, port: u16) -> SocketAddr {
        SocketAddr { ip, port, scope_id: 0 }
    }

    /// A socket address without a scope.
    pub fn new(ip: IpAddr, port: u16) -> (r: SocketAddr)
        ensures
            r == SocketAddr::spec_new(ip, port),
    {
        SocketAddr { ip, port, scope_id: 0 }
    }
}

/// The 16 octets of an address as IPv6, with IPv4 mapped to `::ffff:a.b.c.d`.
pub open spec fn mapped(ip: IpAddr) -> Seq<u8> {
    match ip {
        IpAddr::V4(o) => seq![0u8, 0, 0, 0, 0, 0, 0, 0, 0, 0, 0xff, 0xff] + o@,
        IpAddr::V6(o) => o@,
    }
}

/// The client source address as IPv4-mapped IPv6 (`::ffff:a.b.c.d` for IPv4), 16 bytes.
pub fn mapped_ipv6(ip: IpAddr) -> (r: [u8; 16])
    ensures
        r@ == mapped(ip),
        match ip {
            IpAddr::V4(o) => forall|i: int|
                0 <= i < 16 ==> #[trigger] r@[i] == if i < 10 {
                    0u8
                } else if i < 12 {
                    0xffu8
                } else {
                    o@[i - 12]
                },
            IpAddr::V6(o) => forall|i: int| 0 <= i < 16 ==> #[trigger] r@[i] == o@[i],
        },
{
    match ip {
        IpAddr::V6(o) => o,
        IpAddr::V4(o) => {
            let r: [u8; 16] = [
                0, 0, 0, 0, 0, 0, 0, 0, 0, 0, 0xff, 0xff, o[0], o[1], o[2], o[3],
            ];
            assert(r@ == mapped(ip));
            r
        },
    }
}

// ── Laws ────────────────────────────────────────────────────────────────────────
/// An IPv4 client that is reported as `::ffff:a.b.c.d` maps to the same 16 bytes as its
/// IPv4 form.
pub proof fn law_mapped_form_is_the_same(v4: [u8; 4], v6: [u8; 16])
    requires
        v6@ == seq![0u8, 0, 0, 0, 0, 0, 0, 0, 0, 0, 0xff, 0xff] + v4@,
    ensures
        mapped(IpAddr::V6(v6)) == mapped(IpAddr::V4(v4)),
{
}

/// Two IPv4 addresses, or two IPv6 addresses, with the same mapped form have the same octets.
pub proof fn law_mapped_injective(a: IpAddr, b: IpAddr)
    requires
        mapped(a) == mapped(b),
        a is V4 <==> b is V4,
    ensures
        match (a, b) {
            (IpAddr::V4(x), IpAddr::V4(y)) => x@ == y@,
            (IpAddr::V6(x), IpAddr::V6(y)) => x@ == y@,
            _ => false,
        },
{
    if let (IpAddr::V4(x), IpAddr::V4(y)) = (a, b) {
        assert(mapped(a).skip(12) == x@);
        assert(mapped(b).skip(12) == y@);
    }
}

/// The 16 bytes of an IPv6 address are its octets, each at its own place.
pub proof fn law_ipv6_octets_are_kept(o: [u8; 16])
    ensures
        mapped(IpAddr::V6(o)).len() == 16,
        forall|i: int| 0 <= i < 16 ==> #[trigger] mapped(IpAddr::V6(o))[i] == o@[i],
{
}

/// The 16 bytes of an IPv4 address are ten zeros, two 0xFF and its octets in order.
pub proof fn law_ipv4_octets_come_last(o: [u8; 4])
    ensures
        mapped(IpAddr::V4(o)).len() == 16,
        forall|i: int| 0 <= i < 10 ==> #[trigger] mapped(IpAddr::V4(o))[i] == 0,
        mapped(IpAddr::V4(o))[10] == 0xff,
        mapped(IpAddr::V4(o))[11] == 0xff,
        forall|i: int| 0 <= i < 4 ==> mapped(IpAddr::V4(o))[12 + i] == #[trigger] o@[i],
{
}

} // verus!
