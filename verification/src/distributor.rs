//! The distributor: broadcasts one ordered stream of updates to every
//! configured sink and manages orderly shutdown.
//!
//! Each sink owns an unbounded input channel. Every update is sent, as a
//! shared reference, to every sink's channel in sink order. A failed send
//! aborts the whole relay (fail-fast: one dead sink stops delivery to all).
//! When the stream ends, every channel is closed; a channel is never closed
//! before it has been given every update, and nothing is sent to a channel
//! after it was closed.

use std::sync::Arc;

use futures::channel::mpsc::UnboundedReceiver;
use futures::channel::mpsc::UnboundedSender;
use vstd::prelude::*;

use crate::update::Update;

verus! {

#[verifier::external_type_specification]
#[verifier::external_body]
#[verifier::reject_recursive_types(T)]
pub struct ExUnboundedSender<T>(UnboundedSender<T>);

#[verifier::external_type_specification]
#[verifier::external_body]
#[verifier::reject_recursive_types(T)]
pub struct ExUnboundedReceiver<T>(UnboundedReceiver<T>);

/// The updates accepted into a sink's input channel through this sending
/// handle since the channel was created, oldest first. The receiving half
/// observes exactly this sequence, in this order.
pub uninterp spec fn sent_of(s: UnboundedSender<Arc<Update>>) -> Seq<Update>;

/// Whether the channel has been closed from this sending handle.
pub uninterp spec fn closed_of(s: UnboundedSender<Arc<Update>>) -> bool;

/// Relies on futures::channel::mpsc::unbounded: creates a fresh, open
/// channel holding nothing.
#[verifier::external_body]
fn new_channel() -> (p: (UnboundedSender<Arc<Update>>, UnboundedReceiver<Arc<Update>>))
    ensures
        sent_of(p.0) == Seq::<Update>::empty(),
        !closed_of(p.0),
{
    futures::channel::mpsc::unbounded()
}

/// Relies on UnboundedSender::unbounded_send: on success the message is
/// appended to the channel's queue; on failure (the receiving half is gone,
/// or the channel was closed) the message is handed back and the queue is
/// unchanged. Closing state is not affected either way.
#[verifier::external_body]
fn send_to(senders: &mut Vec<UnboundedSender<Arc<Update>>>, j: usize, u: Arc<Update>) -> (ok: bool)
    requires
        j < old(senders)@.len(),
    ensures
        final(senders)@.len() == old(senders)@.len(),
        forall|i: int|
            0 <= i < old(senders)@.len() && i != j ==> final(senders)@[i] == old(senders)@[i],
        closed_of(final(senders)@[j as int]) == closed_of(old(senders)@[j as int]),
        ok ==> sent_of(final(senders)@[j as int]) == sent_of(old(senders)@[j as int]).push(*u),
        !ok ==> sent_of(final(senders)@[j as int]) == sent_of(old(senders)@[j as int]),
{
    senders[j].unbounded_send(u).is_ok()
}

/// Relies on UnboundedSender::close_channel: closes the channel from the
/// sender side; messages already queued stay available to the receiver; the
/// call cannot fail.
#[verifier::external_body]
fn close_to(senders: &mut Vec<UnboundedSender<Arc<Update>>>, j: usize)
    requires
        j < old(senders)@.len(),
    ensures
        final(senders)@.len() == old(senders)@.len(),
        forall|i: int|
            0 <= i < old(senders)@.len() && i != j ==> final(senders)@[i] == old(senders)@[i],
        closed_of(final(senders)@[j as int]),
        sent_of(final(senders)@[j as int]) == sent_of(old(senders)@[j as int]),
{
    senders[j].close_channel();
}

/// Relies on Arc::clone: the clone is a shared reference to the same update.
#[verifier::external_body]
fn share(u: &Arc<Update>) -> (r: Arc<Update>)
    ensures
        *r == **u,
{
    Arc::clone(u)
}

/// The update a shared reference refers to.
pub open spec fn update_of(a: &Arc<Update>) -> Update {
    **a
}

/// The updates a sequence of shared references refers to, in order.
pub open spec fn seq_of(us: Seq<Arc<Update>>) -> Seq<Update> {
    us.map_values(|a: Arc<Update>| *a)
}

/// A send into a sink's channel was refused; `sink` names the sink.
pub struct DistributeError {
    pub sink: usize,
}

/// The relay stopped at update `update` because sink `sink` refused a send.
pub struct RelayError {
    pub sink: usize,
    pub update: usize,
}

pub enum Phase {
    Running,
    Failed,
    Done,
}

/// Owns the sending half of every sink's input channel. `history` is the
/// sequence of updates distributed so far; while the distributor runs, every
/// sink's channel has been given exactly that sequence and is still open.
pub struct Distributor {
    pub senders: Vec<UnboundedSender<Arc<Update>>>,
    pub phase: Phase,
    pub history: Ghost<Seq<Update>>,
}

/// Every sender has accepted exactly `hist` and is still open.
pub open spec fn senders_ok(ss: Seq<UnboundedSender<Arc<Update>>>, hist: Seq<Update>) -> bool {
    forall|j: int| #![trigger ss[j]]
        0 <= j < ss.len() ==> sent_of(ss[j]) == hist && !closed_of(ss[j])
}

impl Distributor {
    pub open spec fn sink_count(&self) -> int {
        self.senders@.len() as int
    }

    /// While running, every sink's channel holds exactly the distributed
    /// history and is open.
    pub open spec fn wf(&self) -> bool {
        senders_ok(self.senders@, self.history@)
    }

    /// Creates one input channel per sink. The distributor keeps the sending
    /// halves; the receiving halves are handed back, one per sink, in sink
    /// order, to be consumed by the sinks' run loops.
    pub fn new(n: usize) -> (r: (Distributor, Vec<UnboundedReceiver<Arc<Update>>>))
        ensures
            r.0.wf(),
            r.0.phase is Running,
            r.0.history@ == Seq::<Update>::empty(),
            r.0.sink_count() == n,
            r.1@.len() == n,
    {
        let mut senders: Vec<UnboundedSender<Arc<Update>>> = Vec::new();
        let mut receivers: Vec<UnboundedReceiver<Arc<Update>>> = Vec::new();
        let mut i: usize = 0;
        while i < n
            invariant
                i <= n,
                senders@.len() == i,
                receivers@.len() == i,
                senders_ok(senders@, Seq::<Update>::empty()),
            decreases n - i,
        {
            let (s, r) = new_channel();
            senders.push(s);
            receivers.push(r);
            i = i + 1;
        }
        (
            Distributor { senders, phase: Phase::Running, history: Ghost(Seq::empty()) },
            receivers,
        )
    }

    /// Sends one update, as a shared reference, to every sink's channel in
    /// sink order. If some sink refuses the send, the relay fails fast: the
    /// sinks before it have the update, the failing sink and those after it
    /// do not, and no further update will be distributed to anyone.
    pub fn distribute(&mut self, u: Arc<Update>) -> (r: Result<(), DistributeError>)
        requires
            old(self).wf(),
            old(self).phase is Running,
        ensures
            final(self).sink_count() == old(self).sink_count(),
            r is Ok ==> final(self).phase is Running && final(self).wf() && final(self).history@
                == old(self).history@.push(*u),
            r matches Err(e) ==> {
                &&& final(self).phase is Failed
                &&& 0 <= e.sink < old(self).sink_count()
                &&& final(self).history@ == old(self).history@
                &&& forall|j: int| #![trigger final(self).senders@[j]]
                    0 <= j < e.sink ==> sent_of(final(self).senders@[j]) == old(
                        self,
                    ).history@.push(*u)
                &&& forall|j: int| #![trigger final(self).senders@[j]]
                    e.sink <= j < old(self).sink_count() ==> sent_of(
                        final(self).senders@[j],
                    ) == old(self).history@
                &&& forall|j: int| #![trigger final(self).senders@[j]]
                    0 <= j < old(self).sink_count() ==> !closed_of(final(self).senders@[j])
            },
    {
        let ghost hist = self.history@;
        let n = self.senders.len();
        let mut j: usize = 0;
        while j < n
            invariant
                n == self.senders@.len(),
                n == old(self).sink_count(),
                hist == old(self).history@,
                j <= n,
                self.phase is Running,
                self.history@ == hist,
                forall|i: int| #![trigger self.senders@[i]]
                    0 <= i < j ==> sent_of(self.senders@[i]) == hist.push(*u),
                forall|i: int| #![trigger self.senders@[i]] j <= i < n ==> sent_of(self.senders@[i]) == hist,
                forall|i: int| #![trigger self.senders@[i]] 0 <= i < n ==> !closed_of(self.senders@[i]),
            decreases n - j,
        {
            let copy = share(&u);
            let ok = send_to(&mut self.senders, j, copy);
            if !ok {
                self.phase = Phase::Failed;
                return Err(DistributeError { sink: j });
            }
            j = j + 1;
        }
        proof {
            self.history@ = hist.push(update_of(&u));
        }
        Ok(())
    }

    /// Closes every sink's channel, in sink order, signaling that no more
    /// data will come. Every channel keeps exactly the distributed history:
    /// closure is observed only after all of it.
    pub fn finish(&mut self)
        requires
            old(self).wf(),
            old(self).phase is Running,
        ensures
            final(self).phase is Done,
            final(self).sink_count() == old(self).sink_count(),
            final(self).history@ == old(self).history@,
            forall|j: int| #![trigger final(self).senders@[j]]
                0 <= j < old(self).sink_count() ==> closed_of(final(self).senders@[j])
                    && sent_of(final(self).senders@[j]) == old(self).history@,
    {
        let ghost hist = self.history@;
        let n = self.senders.len();
        let mut j: usize = 0;
        while j < n
            invariant
                n == self.senders@.len(),
                n == old(self).sink_count(),
                hist == old(self).history@,
                j <= n,
                self.phase is Running,
                self.history@ == hist,
                forall|i: int| #![trigger self.senders@[i]]
                    0 <= i < j ==> closed_of(self.senders@[i]) && sent_of(
                        self.senders@[i],
                    ) == hist,
                forall|i: int| #![trigger self.senders@[i]]
                    j <= i < n ==> sent_of(self.senders@[i]) == hist && !closed_of(
                        self.senders@[i],
                    ),
            decreases n - j,
        {
            close_to(&mut self.senders, j);
            j = j + 1;
        }
        self.phase = Phase::Done;
    }
}

/// What `run` guarantees: on success every sink's channel was given the
/// whole source sequence, in order, and was then closed; on failure the
/// relay stopped at the named update and sink, nothing past that update
/// reached any sink, and no sink was told the stream ended.
pub open spec fn run_post(
    pre: Distributor,
    post: Distributor,
    updates: Seq<Update>,
    r: Result<(), RelayError>,
) -> bool {
    &&& post.sink_count() == pre.sink_count()
    &&& match r {
        Ok(()) => {
            &&& post.phase is Done
            &&& forall|j: int| #![trigger post.senders@[j]]
                0 <= j < post.sink_count() ==> closed_of(post.senders@[j]) && sent_of(
                    post.senders@[j],
                ) == pre.history@ + updates
        },
        Err(e) => {
            &&& post.phase is Failed
            &&& 0 <= e.sink < pre.sink_count()
            &&& 0 <= e.update < updates.len()
            &&& forall|j: int| #![trigger post.senders@[j]]
                0 <= j < e.sink ==> sent_of(post.senders@[j]) == pre.history@
                    + updates.take(e.update + 1)
            &&& forall|j: int| #![trigger post.senders@[j]]
                e.sink <= j < post.sink_count() ==> sent_of(post.senders@[j])
                    == pre.history@ + updates.take(e.update as int)
            &&& forall|j: int| #![trigger post.senders@[j]] 0 <= j < post.sink_count() ==> !closed_of(post.senders@[j])
        },
    }
}

/// Top-level relay over a finite source sequence: distributes every update
/// to every sink, then closes every sink.
pub fn run(dist: &mut Distributor, updates: &Vec<Arc<Update>>) -> (r: Result<(), RelayError>)
    requires
        old(dist).wf(),
        old(dist).phase is Running,
    ensures
        run_post(*old(dist), *final(dist), seq_of(updates@), r),
{
    let ghost pre = *old(dist);
    let ghost us = seq_of(updates@);
    let mut k: usize = 0;
    while k < updates.len()
        invariant
            pre == *old(dist),
            us == seq_of(updates@),
            us.len() == updates@.len(),
            k <= updates@.len(),
            dist.wf(),
            dist.phase is Running,
            dist.sink_count() == pre.sink_count(),
            dist.history@ == pre.history@ + us.take(k as int),
        decreases updates@.len() - k,
    {
        let u = share(&updates[k]);
        proof {
            assert(us[k as int] == *updates@[k as int]);
        }
        match dist.distribute(u) {
            Ok(()) => {
                proof {
                    assert((pre.history@ + us.take(k as int)).push(us[k as int]) =~= pre.history@
                        + us.take(k as int + 1));
                }
                k = k + 1;
            },
            Err(e) => {
                proof {
                    assert((pre.history@ + us.take(k as int)).push(us[k as int]) =~= pre.history@
                        + us.take(k as int + 1));
                }
                return Err(RelayError { sink: e.sink, update: k });
            },
        }
    }
    proof {
        assert(us.take(us.len() as int) =~= us);
    }
    dist.finish();
    Ok(())
}

/// Fan-out completeness: a relay over a fresh distributor that ends well has
/// given every sink exactly the source sequence, in source order, whole.
pub proof fn lemma_fan_out_completeness(
    pre: Distributor,
    post: Distributor,
    updates: Seq<Update>,
)
    requires
        pre.history@ == Seq::<Update>::empty(),
        run_post(pre, post, updates, Ok(())),
    ensures
        forall|j: int| #![trigger post.senders@[j]]
            0 <= j < post.sink_count() ==> sent_of(post.senders@[j]) == updates,
{
    assert forall|j: int| #![trigger post.senders@[j]] 0 <= j < post.sink_count() implies sent_of(post.senders@[j])
        == updates by {
        assert(sent_of(post.senders@[j]) == pre.history@ + updates);
        assert(pre.history@ + updates =~= updates);
    }
}

/// Closure ordering: however a relay ends, a sink whose channel was closed
/// was first given every update the relay took from the source.
pub proof fn lemma_closure_ordering(
    pre: Distributor,
    post: Distributor,
    updates: Seq<Update>,
    r: Result<(), RelayError>,
)
    requires
        run_post(pre, post, updates, r),
    ensures
        forall|j: int| #![trigger post.senders@[j]]
            0 <= j < post.sink_count() && closed_of(post.senders@[j])
                ==> sent_of(post.senders@[j]) == pre.history@ + updates,
{
}

/// Fail-fast coupling: when one sink's send fails, delivery stops for every
/// sink, the healthy ones included. No sink receives anything past the
/// failing update, the sinks at or after the failing one do not receive even
/// that, and no sink is told the stream ended.
pub proof fn lemma_fail_fast(
    pre: Distributor,
    post: Distributor,
    updates: Seq<Update>,
    e: RelayError,
)
    requires
        run_post(pre, post, updates, Err(e)),
    ensures
        forall|j: int| #![trigger post.senders@[j]]
            0 <= j < post.sink_count() ==> sent_of(post.senders@[j]).len()
                <= pre.history@.len() + e.update + 1,
        forall|j: int| #![trigger post.senders@[j]]
            e.sink <= j < post.sink_count() ==> sent_of(post.senders@[j])
                == pre.history@ + updates.take(e.update as int),
        forall|j: int| #![trigger post.senders@[j]] 0 <= j < post.sink_count() ==> !closed_of(post.senders@[j]),
{
    assert forall|j: int| #![trigger post.senders@[j]] 0 <= j < post.sink_count() implies sent_of(
        post.senders@[j],
    ).len() <= pre.history@.len() + e.update + 1 by {
        if j < e.sink {
            assert(sent_of(post.senders@[j]) == pre.history@ + updates.take(e.update + 1));
        } else {
            assert(sent_of(post.senders@[j]) == pre.history@ + updates.take(e.update as int));
        }
    }
}

} // verus!
