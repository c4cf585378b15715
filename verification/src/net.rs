//! IP addresses of peers and the choice of the address to dial.
use vstd::prelude::*;

verus! {

/// An IP address: four octets, or eight 16-bit segments, most significant first.
#[derive(Clone, Copy, Debug, PartialEq, Eq, Structural)]
pub enum IpAddress {
    V4(u8, u8, u8, u8),
    V6(u16, u16, u16, u16, u16, u16, u16, u16),
}

/// An address and a port to connect to.
#[derive(Clone, Copy, Debug, PartialEq, Eq, Structural)]
pub struct SocketAddress {
    pub ip: IpAddress,
    pub port: u16,
}

/// `10.0.0.0/8`, `172.16.0.0/12` and `192.168.0.0/16` (`Ipv4Addr::is_private`).
pub open spec fn spec_v4_is_private(a: u8, b: u8) -> bool {
    a == 10 || (a == 172 && 16 <= b <= 31) || (a == 192 && b == 168)
}

/// `169.254.0.0/16` (`Ipv4Addr::is_link_local`).
pub open spec fn spec_v4_is_link_local(a: u8, b: u8) -> bool {
    a == 169 && b == 254
}

/// `127.0.0.1` (`Ipv4Addr::LOCALHOST`).
pub open spec fn spec_v4_is_localhost(a: u8, b: u8, c: u8, d: u8) -> bool {
    a == 127 && b == 0 && c == 0 && d == 1
}

/// `fc00::/7` (`Ipv6Addr::is_unique_local`).
pub open spec fn spec_v6_is_unique_local(s0: u16) -> bool {
    0xfc00 <= s0 <= 0xfdff
}

/// `fe80::/10` (`Ipv6Addr::is_unicast_link_local`).
pub open spec fn spec_v6_is_unicast_link_local(s0: u16) -> bool {
    0xfe80 <= s0 <= 0xfebf
}

/// `::1` (`Ipv6Addr::LOCALHOST`).
pub open spec fn spec_v6_is_localhost(ip: IpAddress) -> bool {
    ip == IpAddress::V6(0, 0, 0, 0, 0, 0, 0, 1)
}

/// The preference classes of addresses, from the most preferred (0) to the least (4):
/// private IPv4; link-local or loopback IPv4; unique-local IPv6; any IPv4; IPv6 that is not
/// unicast link-local, or is loopback.
pub open spec fn in_class(ip: IpAddress, class: int) -> bool {
    match ip {
        IpAddress::V4(a, b, c, d) => {
            ||| class == 0 && spec_v4_is_private(a, b)
            ||| class == 1 && (spec_v4_is_link_local(a, b) || spec_v4_is_localhost(a, b, c, d))
            ||| class == 3
        },
        IpAddress::V6(s0, _, _, _, _, _, _, _) => {
            ||| class == 2 && spec_v6_is_unique_local(s0)
            ||| class == 4 && (!spec_v6_is_unicast_link_local(s0) || spec_v6_is_localhost(ip))
        },
    }
}

/// The first address of a class in a list.
pub open spec fn first_in_class(addresses: Seq<IpAddress>, class: int) -> Option<IpAddress>
    decreases addresses.len(),
{
    if addresses.len() == 0 {
        None
    } else if in_class(addresses[0], class) {
        Some(addresses[0])
    } else {
        first_in_class(addresses.drop_first(), class)
    }
}

/// The first address of the most preferred class that the list holds.
pub open spec fn preferred_address(addresses: Seq<IpAddress>) -> Option<IpAddress> {
    if first_in_class(addresses, 0) is Some {
        first_in_class(addresses, 0)
    } else if first_in_class(addresses, 1) is Some {
        first_in_class(addresses, 1)
    } else if first_in_class(addresses, 2) is Some {
        first_in_class(addresses, 2)
    } else if first_in_class(addresses, 3) is Some {
        first_in_class(addresses, 3)
    } else {
        first_in_class(addresses, 4)
    }
}

/// The socket address to dial a peer at: none without a port, else the preferred address.
pub open spec fn spec_preferred_socket_addr(addresses: Seq<IpAddress>, port: u16) -> Option<
    SocketAddress,
> {
    if port == 0 {
        None
    } else {
        match preferred_address(addresses) {
            Some(ip) => Some(SocketAddress { ip, port }),
            None => None,
        }
    }
}

fn is_in_class(ip: IpAddress, class: u8) -> (r: bool)
    ensures
        r == in_class(ip, class as int),
{
    match ip {
        IpAddress::V4(a, b, c, d) => {
            (class == 0 && (a == 10 || (a == 172 && 16 <= b && b <= 31) || (a == 192 && b == 168)))
                || (class == 1 && ((a == 169 && b == 254) || (a == 127 && b == 0 && c == 0 && d
                == 1))) || class == 3
        },
        IpAddress::V6(s0, s1, s2, s3, s4, s5, s6, s7) => {
            (class == 2 && 0xfc00 <= s0 && s0 <= 0xfdff) || (class == 4 && (!(0xfe80 <= s0 && s0
                <= 0xfebf) || (s0 == 0 && s1 == 0 && s2 == 0 && s3 == 0 && s4 == 0 && s5 == 0 && s6
                == 0 && s7 == 1)))
        },
    }
}

fn find_in_class(addresses: &Vec<IpAddress>, class: u8) -> (r: Option<IpAddress>)
    ensures
        r == first_in_class(addresses@, class as int),
{
    assert(addresses@.skip(0) =~= addresses@);
    let mut i: usize = 0;
    while i < addresses.len()
        invariant
            i <= addresses@.len(),
            first_in_class(addresses@, class as int) == first_in_class(
                addresses@.skip(i as int),
                class as int,
            ),
        decreases addresses.len() - i,
    {
        assert(addresses@.skip(i as int)[0] == addresses@[i as int]);
        assert(addresses@.skip(i as int).drop_first() =~= addresses@.skip(i + 1));
        if is_in_class(addresses[i], class) {
            return Some(addresses[i]);
        }
        i = i + 1;
    }
    assert(addresses@.skip(i as int).len() == 0);
    None
}

/// The socket address to dial a peer that listens on `port` at `addresses`.
pub fn preferred_socket_addr(addresses: &Vec<IpAddress>, port: u16) -> (r: Option<SocketAddress>)
    ensures
        r == spec_preferred_socket_addr(addresses@, port),
{
    proof {
        assert(addresses@.skip(0) =~= addresses@);
    }
    if port == 0 {
        return None;
    }
    let mut class: u8 = 0;
    while class < 5
        invariant
            class <= 5,
            port != 0,
            forall|k: int| 0 <= k < class ==> first_in_class(addresses@, k) is None,
        decreases 5 - class,
    {
        if let Some(ip) = find_in_class(addresses, class) {
            return Some(SocketAddress { ip, port });
        }
        class = class + 1;
    }
    None
}

/// An IPv4 address in one of the private ranges `10.0.0.0/8`, `172.16.0.0/12` and
/// `192.168.0.0/16`.
pub open spec fn is_private_v4_address(ip: IpAddress) -> bool {
    match ip {
        IpAddress::V4(a, b, _, _) => a == 10 || (a == 172 && 16 <= b && b <= 31) || (a == 192
            && b == 168),
        IpAddress::V6(..) => false,
    }
}

proof fn lemma_first_in_class_at(addresses: Seq<IpAddress>, class: int, k: int)
    requires
        0 <= k < addresses.len(),
        in_class(addresses[k], class),
        forall|j: int| 0 <= j < k ==> !in_class(#[trigger] addresses[j], class),
    ensures
        first_in_class(addresses, class) == Some(addresses[k]),
    decreases k,
{
    if k > 0 {
        assert(!in_class(addresses[0], class));
        let rest = addresses.drop_first();
        assert forall|j: int| 0 <= j < k - 1 implies !in_class(#[trigger] rest[j], class) by {
            assert(rest[j] == addresses[j + 1]);
        }
        assert(rest[k - 1] == addresses[k]);
        lemma_first_in_class_at(rest, class, k - 1);
    }
}

/// A peer on a private IPv4 network is dialed there: when a peer lists a private IPv4
/// address, the first such address is the one chosen, whatever else it lists.
pub proof fn private_ipv4_addresses_are_preferred(addresses: Seq<IpAddress>, port: u16, k: int)
    requires
        port != 0,
        0 <= k < addresses.len(),
        is_private_v4_address(addresses[k]),
        forall|j: int| 0 <= j < k ==> !is_private_v4_address(#[trigger] addresses[j]),
    ensures
        spec_preferred_socket_addr(addresses, port) == Some(SocketAddress { ip: addresses[k], port }),
{
    assert forall|j: int| 0 <= j < k implies !in_class(#[trigger] addresses[j], 0) by {
        assert(!is_private_v4_address(addresses[j]));
    }
    lemma_first_in_class_at(addresses, 0, k);
}

} // verus!
