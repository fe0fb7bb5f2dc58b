use vstd::prelude::*;

verus! {

/// Length of an Ethernet header: destination, source, ethertype.
pub const ETHERNET_HEADER_LEN: usize = 14;

/// Length of an ARP header for Ethernet hardware and IPv4 protocol addresses.
pub const ARP_HEADER_LEN: usize = 28;

/// Length of a whole Ethernet frame that carries one ARP message.
pub const ARP_FRAME_LEN: usize = 42;

/// Ethertype of ARP.
pub const ETHERTYPE_ARP: u16 = 0x0806;

/// Ethertype of IPv4, used as ARP's protocol type.
pub const ETHERTYPE_IPV4: u16 = 0x0800;

/// ARP hardware type of Ethernet.
pub const HARDWARE_ETHERNET: u16 = 1;

/// A party in an exchange: an IPv4 address and the MAC address that owns it.
#[derive(Clone, Copy, Debug)]
pub struct Endpoint {
    pub ip: [u8; 4],
    pub mac: [u8; 6],
}

/// The two ARP operations this library sends.
#[derive(Clone, Copy, Debug, PartialEq, Eq, Structural)]
pub enum ArpOperation {
    Request,
    Reply,
}

/// The wire code of an operation.
pub open spec fn op_code(op: ArpOperation) -> u16 {
    match op {
        ArpOperation::Request => 1,
        ArpOperation::Reply => 2,
    }
}

impl ArpOperation {
    /// The operation's code as it stands in an ARP header.
    pub fn code(&self) -> (r: u16)
        ensures
            r == op_code(*self),
    {
        match self {
            ArpOperation::Request => 1,
            ArpOperation::Reply => 2,
        }
    }
}

/// An ARP message read from a frame.
#[derive(Clone, Copy, Debug)]
pub struct ArpMessage {
    pub hardware_type: u16,
    pub protocol_type: u16,
    pub hw_addr_len: u8,
    pub proto_addr_len: u8,
    pub operation: u16,
    pub sender: Endpoint,
    pub target: Endpoint,
}

/// A 16-bit value in network byte order.
pub open spec fn be16(v: u16) -> Seq<u8> {
    seq![(v / 256) as u8, (v % 256) as u8]
}

/// The 16-bit big-endian value at offset `k`.
pub open spec fn read_be16(b: Seq<u8>, k: int) -> u16 {
    (b[k] as u16 * 256 + b[k + 1] as u16) as u16
}

/// The ARP header of a message from `source` to `target`.
pub open spec fn arp_header(op: ArpOperation, source: Endpoint, target: Endpoint) -> Seq<u8> {
    be16(HARDWARE_ETHERNET) + be16(ETHERTYPE_IPV4) + seq![6u8, 4u8] + be16(op_code(op))
        + source.mac@ + source.ip@ + target.mac@ + target.ip@
}

/// The Ethernet frame that carries the ARP message from `source` to `target`,
/// addressed to the target's MAC address.
pub open spec fn arp_frame(op: ArpOperation, source: Endpoint, target: Endpoint) -> Seq<u8> {
    target.mac@ + source.mac@ + be16(ETHERTYPE_ARP) + arp_header(op, source, target)
}

/// True when a buffer holds an Ethernet header of ARP type followed by a whole ARP header.
pub open spec fn carries_arp(b: Seq<u8>) -> bool {
    &&& b.len() >= ETHERNET_HEADER_LEN
    &&& read_be16(b, 12) == ETHERTYPE_ARP
    &&& b.len() - ETHERNET_HEADER_LEN >= ARP_HEADER_LEN
}

/// True when `m` holds the fields of the ARP header that starts at byte 14 of `b`.
pub open spec fn decodes_as(b: Seq<u8>, m: ArpMessage) -> bool {
    &&& m.hardware_type == read_be16(b, 14)
    &&& m.protocol_type == read_be16(b, 16)
    &&& m.hw_addr_len == b[18]
    &&& m.proto_addr_len == b[19]
    &&& m.operation == read_be16(b, 20)
    &&& m.sender.mac@ == b.subrange(22, 28)
    &&& m.sender.ip@ == b.subrange(28, 32)
    &&& m.target.mac@ == b.subrange(32, 38)
    &&& m.target.ip@ == b.subrange(38, 42)
}

fn push_be16(v: &mut Vec<u8>, x: u16)
    ensures
        final(v)@ == old(v)@ + be16(x),
{
    v.push((x / 256) as u8);
    v.push((x % 256) as u8);
    assert(final(v)@ =~= old(v)@ + be16(x));
}

fn push_bytes<const N: usize>(v: &mut Vec<u8>, a: &[u8; N])
    ensures
        final(v)@ == old(v)@ + a@,
{
    let ghost start = v@;
    let mut i: usize = 0;
    while i < N
        invariant
            i <= N,
            a@.len() == N,
            v@ == start + a@.subrange(0, i as int),
        decreases N - i,
    {
        v.push(a[i]);
        i += 1;
        assert(v@ =~= start + a@.subrange(0, i as int));
    }
    assert(a@.subrange(0, N as int) =~= a@);
}

/// Builds the 42-byte Ethernet frame carrying an ARP message of operation `op`
/// with `source` as sender and `target` as target.
pub fn encode(op: ArpOperation, source: &Endpoint, target: &Endpoint) -> (r: Vec<u8>)
    ensures
        r@ == arp_frame(op, *source, *target),
        r@.len() == ARP_FRAME_LEN,
{
    let mut v: Vec<u8> = Vec::new();
    push_bytes(&mut v, &target.mac);
    push_bytes(&mut v, &source.mac);
    push_be16(&mut v, ETHERTYPE_ARP);
    push_be16(&mut v, HARDWARE_ETHERNET);
    push_be16(&mut v, ETHERTYPE_IPV4);
    v.push(6);
    v.push(4);
    push_be16(&mut v, op.code());
    push_bytes(&mut v, &source.mac);
    push_bytes(&mut v, &source.ip);
    push_bytes(&mut v, &target.mac);
    push_bytes(&mut v, &target.ip);
    assert(v@ =~= arp_frame(op, *source, *target));
    v
}

fn read_u16(b: &[u8], k: usize) -> (r: u16)
    requires
        k + 1 < b@.len(),
    ensures
        r == read_be16(b@, k as int),
{
    (b[k] as u16 * 256 + b[k + 1] as u16) as u16
}

fn read_mac(b: &[u8], k: usize) -> (r: [u8; 6])
    requires
        k + 6 <= b@.len(),
    ensures
        r@ == b@.subrange(k as int, k + 6),
{
    let r = [b[k], b[k + 1], b[k + 2], b[k + 3], b[k + 4], b[k + 5]];
    assert(r@ =~= b@.subrange(k as int, k + 6));
    r
}

fn read_ip(b: &[u8], k: usize) -> (r: [u8; 4])
    requires
        k + 4 <= b@.len(),
    ensures
        r@ == b@.subrange(k as int, k + 4),
{
    let r = [b[k], b[k + 1], b[k + 2], b[k + 3]];
    assert(r@ =~= b@.subrange(k as int, k + 4));
    r
}

/// Reads the ARP message carried by an Ethernet frame. Frames too short for an
/// Ethernet header, of another ethertype, or too short for an ARP header give `None`.
pub fn decode(b: &[u8]) -> (r: Option<ArpMessage>)
    ensures
        r.is_some() <==> carries_arp(b@),
        r matches Some(m) ==> decodes_as(b@, m),
{
    if b.len() < ETHERNET_HEADER_LEN {
        return None;
    }
    if read_u16(b, 12) != ETHERTYPE_ARP {
        return None;
    }
    if b.len() - ETHERNET_HEADER_LEN < ARP_HEADER_LEN {
        return None;
    }
    Some(
        ArpMessage {
            hardware_type: read_u16(b, 14),
            protocol_type: read_u16(b, 16),
            hw_addr_len: b[18],
            proto_addr_len: b[19],
            operation: read_u16(b, 20),
            sender: Endpoint { mac: read_mac(b, 22), ip: read_ip(b, 28) },
            target: Endpoint { mac: read_mac(b, 32), ip: read_ip(b, 38) },
        },
    )
}

/// Decoding an encoded frame gives back the operation, the sender and the target,
/// with the fixed Ethernet and IPv4 header fields.
pub proof fn lemma_round_trip(op: ArpOperation, source: Endpoint, target: Endpoint, m: ArpMessage)
    requires
        decodes_as(arp_frame(op, source, target), m),
    ensures
        carries_arp(arp_frame(op, source, target)),
        m.operation == op_code(op),
        m.sender == source,
        m.target == target,
        m.hardware_type == HARDWARE_ETHERNET,
        m.protocol_type == ETHERTYPE_IPV4,
        m.hw_addr_len == 6,
        m.proto_addr_len == 4,
{
    let b = arp_frame(op, source, target);
    assert(b.len() == 42);
    assert(m.sender.mac@ =~= source.mac@);
    assert(m.sender.ip@ =~= source.ip@);
    assert(m.target.mac@ =~= target.mac@);
    assert(m.target.ip@ =~= target.ip@);
    assert(m.sender.mac =~= source.mac);
    assert(m.sender.ip =~= source.ip);
    assert(m.target.mac =~= target.mac);
    assert(m.target.ip =~= target.ip);
}

/// A buffer shorter than an Ethernet header, or whose ethertype is not ARP,
/// carries no ARP message.
pub proof fn lemma_filters_foreign(b: Seq<u8>)
    requires
        b.len() < ETHERNET_HEADER_LEN || read_be16(b, 12) != ETHERTYPE_ARP,
    ensures
        !carries_arp(b),
{
}

} // verus!
