use vstd::prelude::*;

verus! {

/// Which side of the session emits packets.
#[derive(Clone, Copy, Debug, PartialEq, Eq, Structural)]
pub enum Phase {
    Attack,
    Restore,
}

/// The answer to a request for the token.
#[derive(Clone, Copy, Debug, PartialEq, Eq, Structural)]
pub enum Acquire {
    /// The caller now holds the token.
    Granted,
    /// Another phase holds the token: try again later.
    Busy,
    /// The caller's phase may never send again.
    Closed,
}

/// What the token holds, seen as plain values.
pub struct GateView {
    pub holder: Option<Phase>,
    pub cancelled: bool,
    pub restore_claimed: bool,
    pub attack_sent: u64,
    pub restore_sent: u64,
    pub sent: Seq<Phase>,
}

/// The synchronisation context shared by the poisoning loop and the restore path:
/// a cancellation flag and a token that one phase at a time may hold while it sends.
/// Restoring is claimed at most once; once it is claimed, or once the session is
/// cancelled, the attack can no longer take the token.
pub struct ExclusionGate {
    holder: Option<Phase>,
    cancelled: bool,
    restore_claimed: bool,
    attack_sent: u64,
    restore_sent: u64,
    sent: Ghost<Seq<Phase>>,
}

/// No packet of the attack follows a packet of the restore.
pub open spec fn no_interleaving(sent: Seq<Phase>) -> bool {
    forall|i: int, j: int|
        0 <= i < j < sent.len() && #[trigger] sent[i] == Phase::Restore ==> #[trigger] sent[j]
            == Phase::Restore
}

impl View for ExclusionGate {
    type V = GateView;

    closed spec fn view(&self) -> GateView {
        GateView {
            holder: self.holder,
            cancelled: self.cancelled,
            restore_claimed: self.restore_claimed,
            attack_sent: self.attack_sent,
            restore_sent: self.restore_sent,
            sent: self.sent@,
        }
    }
}

impl ExclusionGate {
    /// The invariant of the exclusion token.
    pub open spec fn wf(&self) -> bool {
        &&& self@.holder == Some(Phase::Attack) ==> !self@.restore_claimed
        &&& self@.holder == Some(Phase::Restore) ==> self@.restore_claimed
        &&& forall|i: int| 0 <= i < self@.sent.len() && #[trigger] self@.sent[i] == Phase::Restore
            ==> self@.restore_claimed
        &&& no_interleaving(self@.sent)
    }

    /// A free gate, not cancelled, with nothing sent.
    pub fn new() -> (r: ExclusionGate)
        ensures
            r.wf(),
            r@.holder.is_none(),
            !r@.cancelled,
            !r@.restore_claimed,
            r@.attack_sent == 0,
            r@.restore_sent == 0,
            r@.sent.len() == 0,
    {
        ExclusionGate {
            holder: None,
            cancelled: false,
            restore_claimed: false,
            attack_sent: 0,
            restore_sent: 0,
            sent: Ghost(Seq::empty()),
        }
    }

    /// Whether an interrupt was received.
    pub fn is_cancelled(&self) -> (r: bool)
        ensures
            r == self@.cancelled,
    {
        self.cancelled
    }

    /// Records that an interrupt was received.
    pub fn cancel(&mut self)
        requires
            old(self).wf(),
        ensures
            final(self).wf(),
            final(self)@ == (GateView { cancelled: true, ..old(self)@ }),
    {
        self.cancelled = true;
    }

    /// Asks for the token on behalf of the poisoning loop.
    pub fn try_acquire_attack(&mut self) -> (r: Acquire)
        requires
            old(self).wf(),
        ensures
            final(self).wf(),
            old(self)@.cancelled || old(self)@.restore_claimed ==> r == Acquire::Closed,
            !(old(self)@.cancelled || old(self)@.restore_claimed) && old(self)@.holder.is_some()
                ==> r == Acquire::Busy,
            !(old(self)@.cancelled || old(self)@.restore_claimed) && old(self)@.holder.is_none()
                ==> r == Acquire::Granted,
            r == Acquire::Granted ==> final(self)@ == (GateView {
                holder: Some(Phase::Attack),
                ..old(self)@
            }),
            r != Acquire::Granted ==> final(self)@ == old(self)@,
    {
        if self.cancelled || self.restore_claimed {
            Acquire::Closed
        } else if self.holder.is_some() {
            Acquire::Busy
        } else {
            self.holder = Some(Phase::Attack);
            Acquire::Granted
        }
    }

    /// Asks for the token on behalf of the restore. The interrupt path passes
    /// `interrupted`; the path that ends the attack naturally does not, and is closed
    /// once the session is cancelled. The restore is granted at most once.
    pub fn try_claim_restore(&mut self, interrupted: bool) -> (r: Acquire)
        requires
            old(self).wf(),
        ensures
            final(self).wf(),
            old(self)@.restore_claimed || (!interrupted && old(self)@.cancelled) ==> r
                == Acquire::Closed,
            !(old(self)@.restore_claimed || (!interrupted && old(self)@.cancelled))
                && old(self)@.holder.is_some() ==> r == Acquire::Busy,
            !(old(self)@.restore_claimed || (!interrupted && old(self)@.cancelled))
                && old(self)@.holder.is_none() ==> r == Acquire::Granted,
            r == Acquire::Granted ==> final(self)@ == (GateView {
                holder: Some(Phase::Restore),
                restore_claimed: true,
                ..old(self)@
            }),
            r != Acquire::Granted ==> final(self)@ == old(self)@,
    {
        if self.restore_claimed || (!interrupted && self.cancelled) {
            Acquire::Closed
        } else if self.holder.is_some() {
            Acquire::Busy
        } else {
            self.holder = Some(Phase::Restore);
            self.restore_claimed = true;
            Acquire::Granted
        }
    }

    /// Records one packet sent by the phase holding the token, and returns how many
    /// that phase has sent so far (the count stops at its largest value).
    pub fn record_send(&mut self) -> (r: u64)
        requires
            old(self).wf(),
            old(self)@.holder.is_some(),
        ensures
            final(self).wf(),
            final(self)@.sent == old(self)@.sent.push(old(self)@.holder.unwrap()),
            final(self)@.holder == old(self)@.holder,
            final(self)@.cancelled == old(self)@.cancelled,
            final(self)@.restore_claimed == old(self)@.restore_claimed,
            old(self)@.holder == Some(Phase::Attack) ==> final(self)@.attack_sent
                == old(self)@.attack_sent.saturating_add(1) && final(self)@.restore_sent
                == old(self)@.restore_sent && r == final(self)@.attack_sent,
            old(self)@.holder == Some(Phase::Restore) ==> final(self)@.restore_sent
                == old(self)@.restore_sent.saturating_add(1) && final(self)@.attack_sent
                == old(self)@.attack_sent && r == final(self)@.restore_sent,
    {
        let phase = self.holder.unwrap();
        proof {
            self.sent@ = self.sent@.push(phase);
        }
        match phase {
            Phase::Attack => {
                self.attack_sent = self.attack_sent.saturating_add(1);
                self.attack_sent
            },
            Phase::Restore => {
                self.restore_sent = self.restore_sent.saturating_add(1);
                self.restore_sent
            },
        }
    }

    /// Gives the token back.
    pub fn release(&mut self)
        requires
            old(self).wf(),
        ensures
            final(self).wf(),
            final(self)@ == (GateView { holder: None, ..old(self)@ }),
    {
        self.holder = None;
    }

    /// How many packets the attack has sent.
    pub fn attack_sent(&self) -> (r: u64)
        ensures
            r == self@.attack_sent,
    {
        self.attack_sent
    }

    /// How many packets the restore has sent.
    pub fn restore_sent(&self) -> (r: u64)
        ensures
            r == self@.restore_sent,
    {
        self.restore_sent
    }
}

/// However the two phases' requests interleave, once a restore packet has been
/// recorded no attack packet is recorded after it.
pub proof fn lemma_no_interleaving(g: &ExclusionGate)
    requires
        g.wf(),
    ensures
        forall|i: int, j: int|
            0 <= i < j < g@.sent.len() && g@.sent[i] == Phase::Restore ==> g@.sent[j]
                == Phase::Restore,
{
}

} // verus!
