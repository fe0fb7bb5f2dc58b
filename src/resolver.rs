use vstd::prelude::*;

use crate::codec::{arp_frame, carries_arp, decode, encode, ArpOperation, Endpoint};

verus! {

/// How many request frames are sent to learn one address.
pub const PROBE_COUNT: usize = 5;

/// How long resolution waits for a reply, in milliseconds.
pub const RESOLVE_TIMEOUT_MS: u64 = 10000;

/// The Ethernet broadcast address.
pub open spec fn broadcast_mac_spec() -> Seq<u8> {
    seq![0xffu8, 0xffu8, 0xffu8, 0xffu8, 0xffu8, 0xffu8]
}

/// The Ethernet broadcast address.
pub fn broadcast_mac() -> (r: [u8; 6])
    ensures
        r@ == broadcast_mac_spec(),
{
    let r = [0xffu8, 0xffu8, 0xffu8, 0xffu8, 0xffu8, 0xffu8];
    assert(r@ =~= broadcast_mac_spec());
    r
}

/// The endpoint a probe asks about: the queried address, with the broadcast MAC.
pub open spec fn probed(queried_ip: [u8; 4], target: Endpoint) -> bool {
    target.ip == queried_ip && target.mac@ == broadcast_mac_spec()
}

/// Builds an ARP request, sent to the broadcast address, asking who owns `queried_ip`.
pub fn probe_frame(own: &Endpoint, queried_ip: &[u8; 4]) -> (r: Vec<u8>)
    ensures
        exists|t: Endpoint| probed(*queried_ip, t) && r@ == arp_frame(ArpOperation::Request, *own, t),
{
    let target = Endpoint { ip: *queried_ip, mac: broadcast_mac() };
    let r = encode(ArpOperation::Request, own, &target);
    assert(probed(*queried_ip, target));
    r
}

/// True when the frame carries an ARP message whose sender claims `ip`.
pub open spec fn answers(b: Seq<u8>, ip: Seq<u8>) -> bool {
    carries_arp(b) && b.subrange(28, 32) == ip
}

/// The MAC address of the sender of `frame`, when the frame is an ARP message
/// whose sender protocol address is `queried_ip`.
pub fn reply_sender_mac(frame: &[u8], queried_ip: &[u8; 4]) -> (r: Option<[u8; 6]>)
    ensures
        r.is_some() <==> answers(frame@, queried_ip@),
        r matches Some(m) ==> m@ == frame@.subrange(22, 28),
{
    match decode(frame) {
        None => None,
        Some(msg) => {
            let q = queried_ip;
            let ip = msg.sender.ip;
            let same = ip[0] == q[0] && ip[1] == q[1] && ip[2] == q[2] && ip[3] == q[3];
            proof {
                if same {
                    assert(ip@ =~= q@);
                } else if ip@ == q@ {
                    assert(ip@[0] == q@[0] && ip@[1] == q@[1] && ip@[2] == q@[2] && ip@[3] == q@[3]);
                }
            }
            if same {
                Some(msg.sender.mac)
            } else {
                None
            }
        },
    }
}

/// What one step of resolution concludes.
#[derive(Clone, Copy, Debug)]
pub enum ResolveStep {
    /// A reply arrived in time; it holds the sender's MAC address.
    Resolved([u8; 6]),
    /// Nothing useful yet: keep receiving.
    Waiting,
    /// The timeout has elapsed without a reply.
    TimedOut,
}

/// Learns the MAC address that answers for one IPv4 address: the caller sends the
/// probes, receives frames, and hands each one to `step` with the time elapsed.
#[derive(Clone, Copy, Debug)]
pub struct Resolver {
    pub queried_ip: [u8; 4],
    pub timeout_ms: u64,
}

impl Resolver {
    /// A resolver for `queried_ip` with the default timeout.
    pub fn new(queried_ip: [u8; 4]) -> (r: Resolver)
        ensures
            r.queried_ip == queried_ip,
            r.timeout_ms == RESOLVE_TIMEOUT_MS,
    {
        Resolver { queried_ip, timeout_ms: RESOLVE_TIMEOUT_MS }
    }

    /// Decides on the frame received (if any) after `elapsed_ms`: the first answer
    /// from the queried address before the timeout resolves it; once the timeout
    /// has elapsed resolution fails, and not before.
    pub fn step(&self, elapsed_ms: u64, frame: Option<&[u8]>) -> (r: ResolveStep)
        ensures
            elapsed_ms >= self.timeout_ms <==> r is TimedOut,
            elapsed_ms < self.timeout_ms ==> match frame {
                Some(f) => if answers(f@, self.queried_ip@) {
                    r matches ResolveStep::Resolved(m) && m@ == f@.subrange(22, 28)
                } else {
                    r is Waiting
                },
                None => r is Waiting,
            },
    {
        if elapsed_ms >= self.timeout_ms {
            return ResolveStep::TimedOut;
        }
        match frame {
            None => ResolveStep::Waiting,
            Some(f) => match reply_sender_mac(f, &self.queried_ip) {
                Some(m) => ResolveStep::Resolved(m),
                None => ResolveStep::Waiting,
            },
        }
    }
}

} // verus!
