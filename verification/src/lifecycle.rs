//! How a request ends: what successive finalizations of its local queryables
//! produce, for a get of this session and for a request from the network.
use vstd::prelude::*;

use crate::queryable::{finalize_action, gets_after_finalize, FinalizeAction};
use crate::session::{alive_only, decreased, is_registered, with_counter, without_id};

verus! {

/// The get registry, the counters of outstanding local queryables, and the
/// actions produced, after `k` finalizations of request `rid`.
pub open spec fn finalize_run(
    gets: (Seq<(u32, Seq<char>, Option<u64>)>, Map<u32, usize>),
    pending: Map<u32, usize>,
    rid: u32,
    k: nat,
) -> ((Seq<(u32, Seq<char>, Option<u64>)>, Map<u32, usize>), Map<u32, usize>, Seq<FinalizeAction>)
    decreases k,
{
    if k == 0 {
        (gets, pending, Seq::<FinalizeAction>::empty())
    } else {
        let first = finalize_action(gets, pending, rid);
        let rest = finalize_run(
            gets_after_finalize(gets, pending, rid),
            decreased(pending, rid),
            rid,
            (k - 1) as nat,
        );
        (rest.0, rest.1, seq![first] + rest.2)
    }
}

/// `n` waits.
pub open spec fn waits(n: nat) -> Seq<FinalizeAction> {
    Seq::new(n, |i: int| FinalizeAction::Wait)
}

/// With `n` local queryables outstanding, the first `n - 1` finalizations wait
/// and change nothing but the counter; the last one acts as if the counter
/// were 1.
proof fn lemma_run_counts_down(
    gets: (Seq<(u32, Seq<char>, Option<u64>)>, Map<u32, usize>),
    pending: Map<u32, usize>,
    rid: u32,
    n: nat,
)
    requires
        n >= 1,
        pending.contains_key(rid),
        pending[rid] == n,
    ensures
        finalize_run(gets, pending, rid, n).2 == waits((n - 1) as nat) + seq![
            finalize_action(gets, pending.insert(rid, 1), rid),
        ],
        finalize_run(gets, pending, rid, n).0 == gets_after_finalize(
            gets,
            pending.insert(rid, 1),
            rid,
        ),
        finalize_run(gets, pending, rid, n).1 == pending.remove(rid),
    decreases n,
{
    reveal_with_fuel(finalize_run, 2);
    let p1 = pending.insert(rid, 1);
    assert(p1.remove(rid) =~= pending.remove(rid));
    if n == 1 {
        assert(pending =~= p1);
        assert(finalize_run(gets, pending, rid, 0).2 =~= Seq::<FinalizeAction>::empty());
        assert(waits(0) =~= Seq::<FinalizeAction>::empty());
        assert(seq![finalize_action(gets, pending, rid)] + Seq::<FinalizeAction>::empty() =~= waits(
            0,
        ) + seq![finalize_action(gets, p1, rid)]);
    } else {
        let next = decreased(pending, rid);
        assert(next =~= pending.insert(rid, (n - 1) as usize));
        assert(finalize_action(gets, pending, rid) == FinalizeAction::Wait);
        assert(gets_after_finalize(gets, pending, rid) == gets);
        lemma_run_counts_down(gets, next, rid, (n - 1) as nat);
        assert(next.insert(rid, 1) =~= p1);
        assert(next.remove(rid) =~= pending.remove(rid));
        assert(seq![FinalizeAction::Wait] + (waits((n - 2) as nat) + seq![
            finalize_action(gets, p1, rid),
        ]) =~= waits((n - 1) as nat) + seq![finalize_action(gets, p1, rid)]);
    }
}

/// A get of this session handed to `n` local queryables (its counter set to
/// 1, the request's to `n`): the first `n - 1` finalizations wait, the last
/// leaves `Done` to the network's final answer; the get stays registered, so
/// answers still arriving from the network reach it; both counters are then
/// cleared.
pub proof fn lemma_local_get_awaits_remote_final(
    gets: (Seq<(u32, Seq<char>, Option<u64>)>, Map<u32, usize>),
    pending: Map<u32, usize>,
    rid: u32,
    n: usize,
)
    requires
        n >= 1,
        is_registered(gets.0, rid),
    ensures
        ({
            let run = finalize_run(
                (gets.0, with_counter(gets.1, rid, 1)),
                with_counter(pending, rid, n),
                rid,
                n as nat,
            );
            &&& run.2 == waits((n - 1) as nat) + seq![FinalizeAction::AwaitRemoteFinal]
            &&& is_registered(run.0.0, rid)
            &&& run.0.0 == gets.0
            &&& !run.0.1.contains_key(rid)
            &&& !run.1.contains_key(rid)
        }),
{
    let g = (gets.0, with_counter(gets.1, rid, 1));
    let p = with_counter(pending, rid, n);
    lemma_run_counts_down(g, p, rid, n as nat);
}

/// A get of this session that does not expect a final answer from the
/// network (no counter of its own), with `n` local queryables outstanding:
/// `Done` is delivered exactly once, at the `n`-th finalization, which also
/// unregisters the get; a further finalization does nothing.
pub proof fn lemma_local_get_done_once(
    gets: (Seq<(u32, Seq<char>, Option<u64>)>, Map<u32, usize>),
    pending: Map<u32, usize>,
    rid: u32,
    n: usize,
)
    requires
        n >= 1,
        is_registered(gets.0, rid),
        !gets.1.contains_key(rid),
    ensures
        ({
            let run = finalize_run(gets, with_counter(pending, rid, n), rid, (n + 1) as nat);
            &&& run.2 == waits((n - 1) as nat) + seq![
                FinalizeAction::DeliverDone,
                FinalizeAction::Wait,
            ]
            &&& run.0.0 == without_id(gets.0, rid)
        }),
{
    let p = with_counter(pending, rid, n);
    lemma_run_counts_down(gets, p, rid, n as nat);
    lemma_run_split(gets, p, rid, n as nat);
    assert(waits((n - 1) as nat) + seq![FinalizeAction::DeliverDone] + seq![FinalizeAction::Wait]
        =~= waits((n - 1) as nat) + seq![FinalizeAction::DeliverDone, FinalizeAction::Wait]);
}

/// A request from the network (not a get of this session) with `n` local
/// queryables outstanding: `ResponseFinal` is sent exactly once, at the `n`-th
/// finalization, and a further finalization does nothing; the get registry is
/// never touched.
pub proof fn lemma_remote_request_final_once(
    gets: (Seq<(u32, Seq<char>, Option<u64>)>, Map<u32, usize>),
    pending: Map<u32, usize>,
    rid: u32,
    n: usize,
)
    requires
        n >= 1,
        !is_registered(gets.0, rid),
    ensures
        ({
            let run = finalize_run(gets, with_counter(pending, rid, n), rid, (n + 1) as nat);
            &&& run.2 == waits((n - 1) as nat) + seq![
                FinalizeAction::SendResponseFinal,
                FinalizeAction::Wait,
            ]
            &&& run.0 == gets
        }),
{
    let p = with_counter(pending, rid, n);
    lemma_run_counts_down(gets, p, rid, n as nat);
    lemma_run_split(gets, p, rid, n as nat);
    assert(waits((n - 1) as nat) + seq![FinalizeAction::SendResponseFinal] + seq![
        FinalizeAction::Wait,
    ] =~= waits((n - 1) as nat) + seq![FinalizeAction::SendResponseFinal, FinalizeAction::Wait]);
}

/// Once a get has registered its callback, a reply to its request id is
/// delivered to it directly rather than sent to the network, until the get is
/// removed.
pub proof fn lemma_reply_after_get_is_local(
    gets: Seq<(u32, Seq<char>, Option<u64>)>,
    now: u64,
    rid: u32,
    ke: Seq<char>,
    deadline: u64,
)
    ensures
        is_registered(alive_only(gets, now).push((rid, ke, Some(deadline))), rid),
{
    let w = alive_only(gets, now).push((rid, ke, Some(deadline)));
    assert(w[w.len() - 1].0 == rid);
}

/// `k + 1` finalizations are `k` of them followed by one more.
proof fn lemma_run_split(
    gets: (Seq<(u32, Seq<char>, Option<u64>)>, Map<u32, usize>),
    pending: Map<u32, usize>,
    rid: u32,
    k: nat,
)
    ensures
        ({
            let a = finalize_run(gets, pending, rid, k);
            let b = finalize_run(gets, pending, rid, k + 1);
            &&& b.2 == a.2 + seq![finalize_action(a.0, a.1, rid)]
            &&& b.0 == gets_after_finalize(a.0, a.1, rid)
            &&& b.1 == decreased(a.1, rid)
        }),
    decreases k,
{
    reveal_with_fuel(finalize_run, 2);
    if k == 0 {
        assert(finalize_run(gets, pending, rid, 1).2 =~= seq![finalize_action(gets, pending, rid)]);
        assert(finalize_run(gets, pending, rid, 0).2 + seq![finalize_action(gets, pending, rid)]
            =~= seq![finalize_action(gets, pending, rid)]);
    } else {
        let g2 = gets_after_finalize(gets, pending, rid);
        let p2 = decreased(pending, rid);
        lemma_run_split(g2, p2, rid, (k - 1) as nat);
        let first = finalize_action(gets, pending, rid);
        let a = finalize_run(g2, p2, rid, (k - 1) as nat);
        assert(seq![first] + (a.2 + seq![finalize_action(a.0, a.1, rid)]) =~= (seq![first] + a.2)
            + seq![finalize_action(a.0, a.1, rid)]);
    }
}

} // verus!
