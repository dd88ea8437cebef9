//! The per-batch delivery state machine of the reference sink.
//!
//! One batch (the converted metrics of one update) is delivered by first
//! building a write request and then sending it. A failed build is retried
//! at once, with no delay and no bound. A transport failure on send is
//! retried after a fixed delay, rebuilding the same batch. Any response at
//! all, whatever its status, counts as delivered: the status is logged, not
//! inspected. The sink takes up the next update only once the batch is
//! delivered.

use vstd::prelude::*;

verus! {

/// The fixed delay, in seconds, between a transport failure and the rebuild
/// of the same batch.
pub const RETRY_DELAY_SECS: u64 = 5;

/// What came of one attempt to build the write request.
#[derive(Clone, Copy)]
pub enum BuildOutcome {
    Built,
    BuildFailed,
}

/// What came of one attempt to send the built request: either some HTTP
/// response arrived (any status), or the transport failed.
#[derive(Clone, Copy)]
pub enum SendOutcome {
    Response,
    TransportError,
}

/// What the sink is about to do for the current batch.
#[derive(Clone, Copy, PartialEq, Eq, Structural, Debug)]
pub enum BatchPhase {
    /// Build (or rebuild) the write request.
    Building,
    /// Send the built request.
    Sending,
    /// The batch is delivered; take up the next update.
    Delivered,
}

/// The delivery state of one batch, with counters for the attempts made so
/// far: `builds` build attempts, `sends` send attempts, and `waits` fixed
/// delays taken before rebuilding.
pub struct BatchDelivery {
    pub phase: BatchPhase,
    pub builds: u64,
    pub sends: u64,
    pub waits: u64,
}

/// The state after one build attempt: a successful build moves on to
/// sending; a failed build stays in the building phase, to be retried at
/// once, with no delay taken.
pub open spec fn step_build_spec(s: BatchDelivery, o: BuildOutcome) -> BatchDelivery {
    BatchDelivery {
        phase: if o is Built {
            BatchPhase::Sending
        } else {
            BatchPhase::Building
        },
        builds: (s.builds + 1) as u64,
        sends: s.sends,
        waits: s.waits,
    }
}

/// The state after one send attempt: any response delivers the batch; a
/// transport failure takes one fixed delay and goes back to building the
/// same batch.
pub open spec fn step_send_spec(s: BatchDelivery, o: SendOutcome) -> BatchDelivery {
    BatchDelivery {
        phase: if o is Response {
            BatchPhase::Delivered
        } else {
            BatchPhase::Building
        },
        builds: s.builds,
        sends: (s.sends + 1) as u64,
        waits: if o is Response {
            s.waits
        } else {
            (s.waits + 1) as u64
        },
    }
}

/// The machine run over finite scripts of outcomes: build outcomes are
/// consumed while building, send outcomes while sending. It stops when the
/// batch is delivered or when the script for the needed step runs out (a
/// machine still spinning when observation ends).
pub open spec fn run_spec(
    s: BatchDelivery,
    builds: Seq<BuildOutcome>,
    sends: Seq<SendOutcome>,
) -> BatchDelivery
    decreases builds.len() + sends.len(),
{
    match s.phase {
        BatchPhase::Building => if builds.len() == 0 {
            s
        } else {
            run_spec(step_build_spec(s, builds[0]), builds.drop_first(), sends)
        },
        BatchPhase::Sending => if sends.len() == 0 {
            s
        } else {
            run_spec(step_send_spec(s, sends[0]), builds, sends.drop_first())
        },
        BatchPhase::Delivered => s,
    }
}

impl BatchDelivery {
    /// A fresh batch: about to build, nothing attempted yet.
    pub open spec fn initial() -> BatchDelivery {
        BatchDelivery { phase: BatchPhase::Building, builds: 0, sends: 0, waits: 0 }
    }

    pub fn new() -> (s: Self)
        ensures
            s == Self::initial(),
    {
        BatchDelivery { phase: BatchPhase::Building, builds: 0, sends: 0, waits: 0 }
    }

    /// Records one build attempt and its outcome.
    pub fn on_build(&mut self, o: BuildOutcome)
        requires
            old(self).phase is Building,
            old(self).builds < u64::MAX,
        ensures
            *final(self) == step_build_spec(*old(self), o),
    {
        self.builds = self.builds + 1;
        match o {
            BuildOutcome::Built => {
                self.phase = BatchPhase::Sending;
            },
            BuildOutcome::BuildFailed => {
                self.phase = BatchPhase::Building;
            },
        }
    }

    /// Records one send attempt and its outcome. After a transport error the
    /// sink waits `RETRY_DELAY_SECS` seconds (counted in `waits`) and then
    /// rebuilds the same batch.
    pub fn on_send(&mut self, o: SendOutcome)
        requires
            old(self).phase is Sending,
            old(self).sends < u64::MAX,
            old(self).waits < u64::MAX,
        ensures
            *final(self) == step_send_spec(*old(self), o),
    {
        self.sends = self.sends + 1;
        match o {
            SendOutcome::Response => {
                self.phase = BatchPhase::Delivered;
            },
            SendOutcome::TransportError => {
                self.waits = self.waits + 1;
                self.phase = BatchPhase::Building;
            },
        }
    }
}

/// Drives one batch through the machine against finite scripts of outcomes,
/// consuming build outcomes on build attempts and send outcomes on send
/// attempts, until the batch is delivered or the needed script runs out.
pub fn deliver_batch(build_script: &Vec<BuildOutcome>, send_script: &Vec<SendOutcome>) -> (s:
    BatchDelivery)
    ensures
        s == run_spec(BatchDelivery::initial(), build_script@, send_script@),
{
    let mut st = BatchDelivery::new();
    let mut bi: usize = 0;
    let mut si: usize = 0;
    proof {
        assert(build_script@.skip(0) =~= build_script@);
        assert(send_script@.skip(0) =~= send_script@);
    }
    loop
        invariant
            bi <= build_script@.len(),
            si <= send_script@.len(),
            st.builds <= bi,
            st.sends <= si,
            st.waits <= si,
            run_spec(st, build_script@.skip(bi as int), send_script@.skip(si as int)) == run_spec(
                BatchDelivery::initial(),
                build_script@,
                send_script@,
            ),
        decreases (build_script@.len() - bi) + (send_script@.len() - si),
    {
        match st.phase {
            BatchPhase::Building => {
                if bi < build_script.len() {
                    proof {
                        assert(build_script@.skip(bi as int)[0] == build_script@[bi as int]);
                        assert(build_script@.skip(bi as int).drop_first() =~= build_script@.skip(
                            bi as int + 1,
                        ));
                    }
                    st.on_build(build_script[bi]);
                    bi = bi + 1;
                } else {
                    proof {
                        assert(build_script@.skip(bi as int) =~= Seq::<BuildOutcome>::empty());
                    }
                    return st;
                }
            },
            BatchPhase::Sending => {
                if si < send_script.len() {
                    proof {
                        assert(send_script@.skip(si as int)[0] == send_script@[si as int]);
                        assert(send_script@.skip(si as int).drop_first() =~= send_script@.skip(
                            si as int + 1,
                        ));
                    }
                    st.on_send(send_script[si]);
                    si = si + 1;
                } else {
                    proof {
                        assert(send_script@.skip(si as int) =~= Seq::<SendOutcome>::empty());
                    }
                    return st;
                }
            },
            BatchPhase::Delivered => {
                return st;
            },
        }
    }
}

/// Retry termination: from a building state, with every build succeeding and
/// a transport that fails `k` times and then answers, the batch is delivered
/// exactly once — on the last of `k + 1` sends — after exactly `k` waits of
/// the fixed delay, and only then is the next update taken up.
pub proof fn lemma_retry_termination(
    s: BatchDelivery,
    builds: Seq<BuildOutcome>,
    sends: Seq<SendOutcome>,
    k: int,
)
    requires
        s.phase is Building,
        0 <= k,
        builds.len() == k + 1,
        forall|i: int| 0 <= i < builds.len() ==> builds[i] is Built,
        sends.len() == k + 1,
        forall|i: int| 0 <= i < k ==> sends[i] is TransportError,
        sends[k] is Response,
        s.builds + k + 1 <= u64::MAX,
        s.sends + k + 1 <= u64::MAX,
        s.waits + k <= u64::MAX,
    ensures
        run_spec(s, builds, sends).phase is Delivered,
        run_spec(s, builds, sends).builds == s.builds + k + 1,
        run_spec(s, builds, sends).sends == s.sends + k + 1,
        run_spec(s, builds, sends).waits == s.waits + k,
    decreases k,
{
    let s1 = step_build_spec(s, builds[0]);
    assert(run_spec(s, builds, sends) == run_spec(s1, builds.drop_first(), sends));
    let s2 = step_send_spec(s1, sends[0]);
    assert(run_spec(s1, builds.drop_first(), sends) == run_spec(
        s2,
        builds.drop_first(),
        sends.drop_first(),
    ));
    if k == 0 {
        assert(sends[0] is Response);
        assert(s2.phase is Delivered);
    } else {
        assert(sends[0] is TransportError);
        assert(s2.phase is Building);
        assert(forall|i: int|
            0 <= i < builds.drop_first().len() ==> #[trigger] builds.drop_first()[i] is Built);
        assert(forall|i: int|
            0 <= i < k - 1 ==> #[trigger] sends.drop_first()[i] is TransportError);
        assert(sends.drop_first()[k - 1] is Response);
        lemma_retry_termination(s2, builds.drop_first(), sends.drop_first(), k - 1);
    }
}

/// Build-failure spin: from a building state, a batch whose every build
/// attempt fails makes no progress and takes no delay, however long it is
/// observed — one build attempt per script entry, zero waits, zero sends.
/// This characterizes the current behavior; it is not the desired one.
pub proof fn lemma_build_failure_spin(
    s: BatchDelivery,
    builds: Seq<BuildOutcome>,
    sends: Seq<SendOutcome>,
)
    requires
        s.phase is Building,
        forall|i: int| 0 <= i < builds.len() ==> builds[i] is BuildFailed,
        s.builds + builds.len() <= u64::MAX,
    ensures
        run_spec(s, builds, sends).phase is Building,
        run_spec(s, builds, sends).builds == s.builds + builds.len(),
        run_spec(s, builds, sends).sends == s.sends,
        run_spec(s, builds, sends).waits == s.waits,
    decreases builds.len(),
{
    if builds.len() == 0 {
    } else {
        let s1 = step_build_spec(s, builds[0]);
        assert(builds[0] is BuildFailed);
        assert(s1.phase is Building);
        assert(forall|i: int|
            0 <= i < builds.drop_first().len() ==> #[trigger] builds.drop_first()[
                i
            ] is BuildFailed);
        lemma_build_failure_spin(s1, builds.drop_first(), sends);
    }
}

} // verus!
