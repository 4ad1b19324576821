//! Why the queue of unprogrammed sequences runs dry: every sequence that is
//! carried out either brings a waiting GOJ one place nearer to the front, or
//! shortens the queue by more than the timers can refill it in the time the
//! sequence costs.

use crate::cpu::AgcUnprogSeq;
use crate::cpu::CpuView;
use crate::cpu::PeriphAnswers;
use crate::mem::timer::AgcTimers;
use crate::queue::unprog_offer;
use vstd::prelude::*;

verus! {

/// The place of the first GOJ in `q`, or the length of `q` where none
/// waits.
pub open spec fn first_goj(q: Seq<AgcUnprogSeq>) -> int
    decreases q.len(),
{
    if q.len() == 0 {
        0
    } else if q[0] == AgcUnprogSeq::GOJ {
        0
    } else {
        1 + first_goj(q.drop_first())
    }
}

/// Whether a GOJ waits in `q`.
pub open spec fn has_goj(q: Seq<AgcUnprogSeq>) -> bool {
    first_goj(q) < q.len()
}

/// How far the queue of the machine `s` is from running dry: the place of
/// the first GOJ where one waits; otherwise a sum in which each waiting
/// sequence weighs as much as the ticks it takes the scaler to queue the
/// next.
pub open spec fn drain_measure(s: CpuView) -> int {
    if has_goj(s.unprog) {
        first_goj(s.unprog)
    } else {
        9 + 20 * s.unprog.len() + s.mem.timers.scaler_mcts
    }
}

/// The first GOJ is a place in the queue or its end.
pub proof fn lemma_first_goj_range(q: Seq<AgcUnprogSeq>)
    ensures
        0 <= first_goj(q) <= q.len(),
    decreases q.len(),
{
    if q.len() > 0 && q[0] != AgcUnprogSeq::GOJ {
        lemma_first_goj_range(q.drop_first());
    }
}

/// A sequence that joins at the back leaves a waiting GOJ where it is; a GOJ
/// that joins a queue without one is the first.
pub proof fn lemma_first_goj_push(q: Seq<AgcUnprogSeq>, x: AgcUnprogSeq)
    ensures
        has_goj(q) ==> first_goj(q.push(x)) == first_goj(q),
        !has_goj(q) && x == AgcUnprogSeq::GOJ ==> first_goj(q.push(x)) == q.len(),
        !has_goj(q) && x != AgcUnprogSeq::GOJ ==> first_goj(q.push(x)) == q.len() + 1,
    decreases q.len(),
{
    lemma_first_goj_range(q);
    if q.len() == 0 {
        assert(q.push(x).drop_first() =~= Seq::<AgcUnprogSeq>::empty());
        assert(first_goj(Seq::<AgcUnprogSeq>::empty()) == 0);
        assert(q.push(x)[0] == x);
    } else {
        assert(q.push(x).drop_first() =~= q.drop_first().push(x));
        if q[0] != AgcUnprogSeq::GOJ {
            lemma_first_goj_push(q.drop_first(), x);
        }
    }
}

/// What an offer does to a queue of at most eight: a waiting GOJ stays
/// where it is; a queue without GOJ stays so when another sequence is
/// offered; the queue grows by one at most and stays within eight.
pub proof fn lemma_offer(q: Seq<AgcUnprogSeq>, x: AgcUnprogSeq)
    requires
        q.len() <= 8,
    ensures
        unprog_offer(q, x).len() <= 8,
        q.len() <= unprog_offer(q, x).len() <= q.len() + 1,
        has_goj(q) ==> has_goj(unprog_offer(q, x)) && first_goj(unprog_offer(q, x)) == first_goj(q),
        !has_goj(q) && x != AgcUnprogSeq::GOJ ==> !has_goj(unprog_offer(q, x)),
        !has_goj(q) && x == AgcUnprogSeq::GOJ && q.len() < 8 ==> has_goj(unprog_offer(q, x)),
{
    lemma_first_goj_push(q, x);
    lemma_first_goj_range(q);
}

/// What one step of the scaler does to a queue of at most eight: it offers
/// at most four sequences, none of them GOJ.
pub proof fn lemma_scaler_step_queue(t: AgcTimers, q: Seq<AgcUnprogSeq>)
    requires
        q.len() <= 8,
    ensures
        t.spec_scaler_step(q).queue.len() <= 8,
        q.len() <= t.spec_scaler_step(q).queue.len() <= q.len() + 4,
        has_goj(q) ==> has_goj(t.spec_scaler_step(q).queue) && first_goj(
            t.spec_scaler_step(q).queue,
        ) == first_goj(q),
        !has_goj(q) ==> !has_goj(t.spec_scaler_step(q).queue),
{
    let q1 = unprog_offer(q, AgcUnprogSeq::PINC);
    lemma_offer(q, AgcUnprogSeq::PINC);
    let q2 = unprog_offer(q1, AgcUnprogSeq::PINC);
    lemma_offer(q1, AgcUnprogSeq::PINC);
    let q3 = unprog_offer(q2, AgcUnprogSeq::PINC);
    lemma_offer(q2, AgcUnprogSeq::PINC);
    lemma_offer(q, AgcUnprogSeq::DINC);
    lemma_offer(q1, AgcUnprogSeq::DINC);
    lemma_offer(q2, AgcUnprogSeq::DINC);
    lemma_offer(q3, AgcUnprogSeq::DINC);
}

/// What `n` steps of the scaler do to a queue of at most eight: they offer
/// at most four sequences each, none of them GOJ.
pub proof fn lemma_scaler_run_queue(t: AgcTimers, q: Seq<AgcUnprogSeq>, n: nat)
    requires
        q.len() <= 8,
    ensures
        t.spec_scaler_run(q, n).queue.len() <= 8,
        q.len() <= t.spec_scaler_run(q, n).queue.len() <= q.len() + 4 * n,
        has_goj(q) ==> has_goj(t.spec_scaler_run(q, n).queue) && first_goj(
            t.spec_scaler_run(q, n).queue,
        ) == first_goj(q),
        !has_goj(q) ==> !has_goj(t.spec_scaler_run(q, n).queue),
    decreases n,
{
    if n > 0 {
        lemma_scaler_run_queue(t, q, (n - 1) as nat);
        let before = t.spec_scaler_run(q, (n - 1) as nat);
        lemma_scaler_step_queue(before.timers, before.queue);
    }
}

/// What the accounting of a cost does to a queue of at most seven: a
/// waiting GOJ stays where it is; otherwise either a GOJ comes to wait, or
/// the queue and the scaler's ticks together grow by no more than the ticks
/// of the cost.
pub proof fn lemma_account_queue(s: CpuView)
    requires
        s.unprog.len() <= 7,
    ensures
        s.account().unprog.len() <= 8,
        has_goj(s.unprog) ==> has_goj(s.account().unprog) && first_goj(s.account().unprog)
            == first_goj(s.unprog),
        !has_goj(s.unprog) ==> has_goj(s.account().unprog) || 20 * s.account().unprog.len()
            + s.account().mem.timers.scaler_mcts <= 20 * s.unprog.len()
            + s.mem.timers.scaler_mcts + 3 * s.cycles,
{
    reveal(CpuView::account);
    let s1 = s.nightwatch_tick();
    lemma_offer(s.unprog, AgcUnprogSeq::GOJ);
    let s2 = s1.tc_trap();
    lemma_offer(s1.unprog, AgcUnprogSeq::GOJ);
    let s3 = s2.ruptlock();
    lemma_offer(s2.unprog, AgcUnprogSeq::GOJ);
    let t = s3.mem.timers;
    let started = AgcTimers {
        downrupt: if t.downrupt_due(s3.cycles) {
            0u32
        } else {
            (t.downrupt + s3.cycles) as u32
        },
        ..t
    };
    let n = (t.ticks_with(s3.cycles) / 80) as nat;
    lemma_scaler_run_queue(started, s3.unprog, n);
    assert(s3.mem.timers.scaler_mcts == s.mem.timers.scaler_mcts);
    assert(s3.cycles == s.cycles);
}

/// A sequence that does not end the step brings the queue nearer to running
/// dry.
pub proof fn lemma_unprog_step_drains(s: CpuView, ans: PeriphAnswers)
    requires
        0 < s.unprog.len() <= 8,
        !s.unprog_step(ans).1,
    ensures
        s.unprog_step(ans).0.unprog.len() <= 8,
        0 <= drain_measure(s.unprog_step(ans).0) < drain_measure(s),
{
    reveal(CpuView::accept);
    let seq = s.unprog[0];
    let popped = CpuView {
        unprog: s.unprog.drop_first(),
        cycles: crate::cpu::step::spec_unprog_cost(seq),
        ..s
    };
    lemma_account_queue(popped);
    lemma_first_goj_range(s.unprog);
    lemma_first_goj_range(popped.unprog);
    lemma_first_goj_range(popped.account().unprog);
    assert(s.unprog_step(ans).0.unprog == popped.account().unprog);
    assert(s.unprog_step(ans).0.mem.timers == popped.account().mem.timers);
}

} // verus!
