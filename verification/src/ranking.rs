//! Ranking of the process table by processor usage.

use crate::system::ProcessInfo;
use vstd::prelude::*;

verus! {

/// How many processes a snapshot carries.
pub const SNAPSHOT_PROCESS_CAP: usize = 50;

/// How many processes the process list shows.
pub const PROCESS_LIST_CAP: usize = 100;

/// Where a usage stands among all usages: a missing reading below every
/// reading there is, and readings by their size.
pub open spec fn usage_level(usage: Option<u32>) -> int {
    match usage {
        Some(units) => units as int,
        None => -1,
    }
}

/// The processor usage of each process, in table order.
pub open spec fn usages(processes: Seq<ProcessInfo>) -> Seq<Option<u32>> {
    Seq::new(processes.len(), |i: int| processes[i].cpu_usage)
}

/// Whether the entry at position `a` ranks before the one at `b`: it uses
/// more processor, or as much and stands earlier in the table.
pub open spec fn ranks_before(usage: Seq<Option<u32>>, a: int, b: int) -> bool {
    usage_level(usage[a]) > usage_level(usage[b]) || (usage_level(usage[a]) == usage_level(
        usage[b],
    ) && a < b)
}

/// Whether `order` lists every position of `usage` by rank, best first.
/// Since `ranks_before` is a strict total order on positions, exactly one
/// sequence does.
pub open spec fn is_ranking(usage: Seq<Option<u32>>, order: Seq<int>) -> bool {
    &&& order.len() == usage.len()
    &&& forall|i: int| 0 <= i < order.len() ==> 0 <= #[trigger] order[i] < usage.len()
    &&& forall|i: int, j: int|
        0 <= i < j < order.len() ==> ranks_before(usage, #[trigger] order[i], #[trigger] order[j])
}

/// Whether `top` is the first `cap` entries of `processes` in rank order (all
/// of them where the table has no more than `cap`).
pub open spec fn is_top_ranked(processes: Seq<ProcessInfo>, cap: nat, top: Seq<ProcessInfo>) -> bool {
    exists|order: Seq<int>| is_top_by(processes, cap, top, order)
}

/// Whether `top` is the first `cap` entries of `processes` in the order that
/// the ranking `order` gives.
pub open spec fn is_top_by(
    processes: Seq<ProcessInfo>,
    cap: nat,
    top: Seq<ProcessInfo>,
    order: Seq<int>,
) -> bool {
    &&& is_ranking(usages(processes), order)
    &&& top.len() == if processes.len() <= cap {
        processes.len()
    } else {
        cap
    }
    &&& forall|i: int| 0 <= i < top.len() ==> #[trigger] top[i] == processes[order[i]]
}

/// The level of `usage` as a number that can be compared: one more than
/// `usage_level`.
fn level_of(usage: Option<u32>) -> (level: u64)
    ensures
        level == usage_level(usage) + 1,
{
    match usage {
        Some(units) => units as u64 + 1,
        None => 0,
    }
}

/// Sorts the process table by descending processor usage, entries of equal
/// usage staying in table order and entries without a reading coming last,
/// and keeps the first `cap`.
pub fn rank_processes(processes: Vec<ProcessInfo>, cap: usize) -> (top: Vec<ProcessInfo>)
    ensures
        is_top_ranked(processes@, cap as nat, top@),
{
    let ghost table = processes@;
    let ghost usage = usages(table);
    let mut rest = processes;
    let mut ranked: Vec<ProcessInfo> = Vec::new();
    let ghost mut order: Seq<int> = Seq::empty();
    while rest.len() > 0
        invariant
            rest@ == table.subrange(0, rest@.len() as int),
            rest@.len() <= table.len(),
            usage == usages(table),
            ranked@.len() == table.len() - rest@.len(),
            order.len() == ranked@.len(),
            forall|i: int| 0 <= i < order.len() ==> rest@.len() <= #[trigger] order[i] < table.len(),
            forall|i: int| 0 <= i < order.len() ==> #[trigger] ranked@[i] == table[order[i]],
            forall|i: int, j: int|
                0 <= i < j < order.len() ==> ranks_before(
                    usage,
                    #[trigger] order[i],
                    #[trigger] order[j],
                ),
        decreases rest@.len(),
    {
        let ghost k = rest@.len() - 1;
        let entry = rest.pop().unwrap();
        assert(entry == table[k]);
        let level = level_of(entry.cpu_usage);
        let mut at: usize = 0;
        while at < ranked.len() && level_of(ranked[at].cpu_usage) > level
            invariant
                at <= ranked@.len(),
                level == usage_level(entry.cpu_usage) + 1,
                forall|i: int|
                    0 <= i < at ==> usage_level((#[trigger] ranked@[i]).cpu_usage) > usage_level(
                        entry.cpu_usage,
                    ),
            decreases ranked@.len() - at,
        {
            at += 1;
        }
        let ghost before = order;
        let ghost ranked_before = ranked@;
        ranked.insert(at, entry);
        proof {
            order = before.insert(at as int, k);
            assert forall|i: int| 0 <= i < order.len() implies #[trigger] ranked@[i]
                == table[order[i]] by {
                if i > at {
                    assert(ranked@[i] == ranked_before[i - 1]);
                }
            }
            assert forall|i: int, j: int| 0 <= i < j < order.len() implies ranks_before(
                usage,
                #[trigger] order[i],
                #[trigger] order[j],
            ) by {
                if j == at {
                    assert(usage_level(ranked_before[i].cpu_usage) > usage_level(entry.cpu_usage));
                    assert(ranked_before[i] == table[before[i]]);
                } else if i == at {
                    assert(order[j] == before[j - 1]);
                    assert(ranked_before[at as int] == table[before[at as int]]);
                    if j - 1 > at {
                        assert(ranks_before(usage, before[at as int], before[j - 1]));
                    }
                } else {
                    let a = if i < at { i } else { i - 1 };
                    let b = if j < at { j } else { j - 1 };
                    assert(ranks_before(usage, before[a], before[b]));
                }
            }
        }
    }
    ranked.truncate(cap);
    proof {
        assert(rest@.len() == 0);
        assert(is_top_by(table, cap as nat, ranked@, order));
    }
    ranked
}

/// A ranking names every position of the table.
proof fn lemma_ranking_covers(usage: Seq<Option<u32>>, order: Seq<int>, position: int)
    requires
        is_ranking(usage, order),
        0 <= position < usage.len(),
    ensures
        exists|i: int| 0 <= i < order.len() && order[i] == position,
{
    let n = usage.len() as int;
    assert(order.no_duplicates()) by {
        assert forall|i: int, j: int| 0 <= i < order.len() && 0 <= j < order.len() && i != j implies order[i]
            != order[j] by {
            if i < j {
                assert(ranks_before(usage, order[i], order[j]));
            } else {
                assert(ranks_before(usage, order[j], order[i]));
            }
        }
    }
    order.unique_seq_to_set();
    vstd::set_lib::lemma_int_range(0, n);
    let named = order.to_set();
    let all = vstd::set_lib::set_int_range(0, n);
    assert(named.subset_of(all)) by {
        assert forall|p: int| named.contains(p) implies all.contains(p) by {
            let i = choose|i: int| 0 <= i < order.len() && order[i] == p;
            assert(0 <= order[i] < n);
        }
    }
    vstd::set_lib::lemma_set_subset_finite(all, named);
    vstd::set_lib::lemma_subset_equality(named, all);
    assert(all.contains(position));
    assert(order.contains(position));
}

/// Two rankings of one table agree up to any position.
proof fn lemma_rankings_agree(usage: Seq<Option<u32>>, a: Seq<int>, b: Seq<int>, upto: int)
    requires
        is_ranking(usage, a),
        is_ranking(usage, b),
        0 <= upto <= usage.len(),
    ensures
        forall|i: int| 0 <= i < upto ==> a[i] == b[i],
    decreases upto,
{
    if upto > 0 {
        lemma_rankings_agree(usage, a, b, upto - 1);
        let i = upto - 1;
        let p = a[i];
        let q = b[i];
        if p != q {
            lemma_ranking_covers(usage, b, p);
            let j = choose|j: int| 0 <= j < b.len() && b[j] == p;
            lemma_ranking_covers(usage, a, q);
            let k = choose|k: int| 0 <= k < a.len() && a[k] == q;
            if j < i {
                assert(a[j] == b[j]);
                assert(ranks_before(usage, a[j], a[i]));
            }
            if k < i {
                assert(b[k] == a[k]);
                assert(ranks_before(usage, b[k], b[i]));
            }
            assert(ranks_before(usage, b[i], b[j]));
            assert(ranks_before(usage, a[i], a[k]));
        }
    }
}

/// The ranking of a table is unique: two sequences that both list its
/// positions by rank are the same sequence.
pub proof fn lemma_ranking_unique(usage: Seq<Option<u32>>, a: Seq<int>, b: Seq<int>)
    requires
        is_ranking(usage, a),
        is_ranking(usage, b),
    ensures
        a == b,
{
    lemma_rankings_agree(usage, a, b, usage.len() as int);
    assert(a =~= b);
}

/// The top of a table is unique: `is_top_ranked` holds of one result only.
pub proof fn lemma_top_ranked_unique(
    processes: Seq<ProcessInfo>,
    cap: nat,
    first: Seq<ProcessInfo>,
    second: Seq<ProcessInfo>,
)
    requires
        is_top_ranked(processes, cap, first),
        is_top_ranked(processes, cap, second),
    ensures
        first == second,
{
    let a = choose|order: Seq<int>| is_top_by(processes, cap, first, order);
    let b = choose|order: Seq<int>| is_top_by(processes, cap, second, order);
    lemma_ranking_unique(usages(processes), a, b);
    assert(first =~= second);
}

/// The top of a table is sorted: usage never rises from one entry to the
/// next, and no reading follows an entry without one.
pub proof fn lemma_top_ranked_descends(processes: Seq<ProcessInfo>, cap: nat, top: Seq<ProcessInfo>)
    requires
        is_top_ranked(processes, cap, top),
    ensures
        forall|i: int, j: int|
            0 <= i < j < top.len() ==> usage_level((#[trigger] top[i]).cpu_usage) >= usage_level(
                (#[trigger] top[j]).cpu_usage,
            ),
{
    let order = choose|order: Seq<int>| is_top_by(processes, cap, top, order);
    assert forall|i: int, j: int| 0 <= i < j < top.len() implies usage_level(
        (#[trigger] top[i]).cpu_usage,
    ) >= usage_level((#[trigger] top[j]).cpu_usage) by {
        assert(ranks_before(usages(processes), order[i], order[j]));
    }
}

} // verus!
