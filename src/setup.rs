use vstd::prelude::*;

use crate::codec::Endpoint;

verus! {

/// Why a session cannot start on an interface.
#[derive(Clone, Copy, Debug, PartialEq, Eq, Structural)]
pub enum SetupError {
    /// The interface has no IPv4 address.
    NoIpv4,
    /// The interface's IPv4 address is a loopback address.
    Loopback,
    /// The interface has no MAC address.
    NoMac,
}

impl SetupError {
    /// A one-line diagnosis, in the markup of log messages.
    pub fn message(&self) -> (r: &'static str)
        ensures
            *self == SetupError::NoIpv4 ==> r@ == "*interface does not have ipv4 address assigned*"@,
            *self == SetupError::Loopback ==> r@ == "*interface is loopback*"@,
            *self == SetupError::NoMac ==> r@ == "*interface does not have mac address assigned*"@,
    {
        match self {
            SetupError::NoIpv4 => "*interface does not have ipv4 address assigned*",
            SetupError::Loopback => "*interface is loopback*",
            SetupError::NoMac => "*interface does not have mac address assigned*",
        }
    }
}

/// True for an address of 127.0.0.0/8.
pub open spec fn is_loopback(ip: [u8; 4]) -> bool {
    ip[0] == 127
}

/// Checks that an interface can carry a session: it needs an IPv4 address that is
/// not loopback, and a MAC address. On success the result is the interface's own
/// endpoint.
pub fn check_interface(ipv4: Option<[u8; 4]>, mac: Option<[u8; 6]>) -> (r: Result<Endpoint, SetupError>)
    ensures
        ipv4.is_none() ==> r == Err::<Endpoint, SetupError>(SetupError::NoIpv4),
        ipv4 matches Some(ip) && is_loopback(ip) ==> r == Err::<Endpoint, SetupError>(SetupError::Loopback),
        ipv4 matches Some(ip) && !is_loopback(ip) && mac.is_none() ==> r == Err::<Endpoint, SetupError>(SetupError::NoMac),
        ipv4 matches Some(ip) && !is_loopback(ip) && mac is Some ==> (r matches Ok(e) && e.ip == ipv4.unwrap() && e.mac == mac.unwrap()),
{
    match ipv4 {
        None => Err(SetupError::NoIpv4),
        Some(ip) => {
            if ip[0] == 127 {
                Err(SetupError::Loopback)
            } else {
                match mac {
                    None => Err(SetupError::NoMac),
                    Some(m) => Ok(Endpoint { ip, mac: m }),
                }
            }
        },
    }
}

/// The octet whose `n` highest bits are set.
pub open spec fn high_bits_spec(n: int) -> u8 {
    if n <= 0 {
        0
    } else if n == 1 {
        0x80
    } else if n == 2 {
        0xc0
    } else if n == 3 {
        0xe0
    } else if n == 4 {
        0xf0
    } else if n == 5 {
        0xf8
    } else if n == 6 {
        0xfc
    } else if n == 7 {
        0xfe
    } else {
        0xff
    }
}

/// The octet `k` of the netmask of a prefix of `prefix` bits.
pub open spec fn mask_octet(prefix: u8, k: int) -> u8 {
    high_bits_spec(prefix - 8 * k)
}

/// The network address of `ip` under a prefix of `prefix` bits.
pub open spec fn network_of(ip: [u8; 4], prefix: u8) -> Seq<u8> {
    Seq::new(4, |k: int| ip[k] & mask_octet(prefix, k))
}

fn high_bits(n: i32) -> (r: u8)
    ensures
        r == high_bits_spec(n as int),
{
    if n <= 0 {
        0
    } else if n == 1 {
        0x80
    } else if n == 2 {
        0xc0
    } else if n == 3 {
        0xe0
    } else if n == 4 {
        0xf0
    } else if n == 5 {
        0xf8
    } else if n == 6 {
        0xfc
    } else if n == 7 {
        0xfe
    } else {
        0xff
    }
}

/// The network address of `ip` under a prefix of `prefix` bits.
pub fn network_address(ip: [u8; 4], prefix: u8) -> (r: [u8; 4])
    requires
        prefix <= 32,
    ensures
        r@ == network_of(ip, prefix),
{
    let p = prefix as i32;
    let r = [
        ip[0] & high_bits(p),
        ip[1] & high_bits(p - 8),
        ip[2] & high_bits(p - 16),
        ip[3] & high_bits(p - 24),
    ];
    assert(r@ =~= network_of(ip, prefix));
    r
}

/// The gateway guessed for an interface: the network address plus one. There is
/// none when the network address ends in 255.
pub fn infer_gateway(ip: [u8; 4], prefix: u8) -> (r: Option<[u8; 4]>)
    requires
        prefix <= 32,
    ensures
        network_of(ip, prefix)[3] == 255 ==> r.is_none(),
        network_of(ip, prefix)[3] < 255 ==> (r matches Some(g) && g@ == network_of(ip, prefix).update(
            3,
            (network_of(ip, prefix)[3] + 1) as u8,
        )),
{
    let n = network_address(ip, prefix);
    if n[3] == 255 {
        None
    } else {
        let g = [n[0], n[1], n[2], n[3] + 1];
        assert(g@ =~= network_of(ip, prefix).update(3, (network_of(ip, prefix)[3] + 1) as u8));
        Some(g)
    }
}

} // verus!
