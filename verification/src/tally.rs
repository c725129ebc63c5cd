//! Counting how many of the selected species share each need.

use crate::needs::{all_needs, lemma_rank_identifies, spec_all_needs, Need, NEED_COUNT};
use crate::species::{lemma_needs_listed_once, Species};
use vstd::multiset::Multiset;
use vstd::prelude::*;

verus! {

/// The needs of the selected species by demand, and how many species were
/// selected.
#[derive(Debug, PartialEq, Eq)]
pub struct Aggregation {
    /// Each need that some selected species has, with the number of selected
    /// species that have it: highest number first, and among equal numbers
    /// lower rank first.
    pub ranking: Vec<(Need, usize)>,
    /// The number of selected species.
    pub total: usize,
}

/// How many of the species in `selected` list `need`.
pub open spec fn demand(selected: Seq<Species>, need: Need) -> nat
    decreases selected.len(),
{
    if selected.len() == 0 {
        0
    } else {
        demand(selected.drop_last(), need) + if selected.last().spec_needs().contains(need) {
            1nat
        } else {
            0nat
        }
    }
}

/// Whether entry `a` stands before entry `b`: a higher count first, and among
/// equal counts the need of lower rank.
pub open spec fn precedes(a: (Need, usize), b: (Need, usize)) -> bool {
    a.1 > b.1 || (a.1 == b.1 && a.0.spec_rank() < b.0.spec_rank())
}

/// Whether `ranking` has an entry for `need`.
pub open spec fn lists(ranking: Seq<(Need, usize)>, need: Need) -> bool {
    exists|i: int| 0 <= i < ranking.len() && (#[trigger] ranking[i]).0 == need
}

/// Whether `ranking` is the ranking of the needs of `selected`: every entry
/// carries the demand for its need, which is at least one; every need in
/// demand has an entry; and the entries stand in order.
pub open spec fn is_ranking(selected: Seq<Species>, ranking: Seq<(Need, usize)>) -> bool {
    &&& forall|i: int|
        0 <= i < ranking.len() ==> 1 <= (#[trigger] ranking[i]).1 == demand(selected, ranking[i].0)
    &&& forall|need: Need| demand(selected, need) >= 1 ==> lists(ranking, need)
    &&& forall|i: int, j: int|
        0 <= i < j < ranking.len() ==> precedes(#[trigger] ranking[i], #[trigger] ranking[j])
}

/// The ranking of the needs of `selected`. A selection has exactly one:
/// [`lemma_ranking_exists`], [`lemma_ranking_is_unique`].
pub open spec fn ranking_of(selected: Seq<Species>) -> Seq<(Need, usize)> {
    choose|ranking: Seq<(Need, usize)>| is_ranking(selected, ranking)
}

/// No need is in demand by more species than were selected.
pub proof fn lemma_demand_is_bounded(selected: Seq<Species>, need: Need)
    ensures
        demand(selected, need) <= selected.len(),
    decreases selected.len(),
{
    if selected.len() > 0 {
        lemma_demand_is_bounded(selected.drop_last(), need);
    }
}

/// What the copies of `species` in a selection add to the demand for `need`.
spec fn share(picks: Multiset<Species>, species: Species, need: Need) -> nat {
    if species.spec_needs().contains(need) {
        picks.count(species)
    } else {
        0
    }
}

proof fn lemma_demand_by_species(selected: Seq<Species>, need: Need)
    ensures
        demand(selected, need) == share(selected.to_multiset(), Species::Humans, need) + share(
            selected.to_multiset(),
            Species::Beavers,
            need,
        ) + share(selected.to_multiset(), Species::Lizards, need) + share(
            selected.to_multiset(),
            Species::Harpies,
            need,
        ) + share(selected.to_multiset(), Species::Foxes, need),
    decreases selected.len(),
{
    broadcast use vstd::multiset::group_multiset_axioms;

    if selected.len() == 0 {
        selected.to_multiset_ensures();
    } else {
        let front = selected.drop_last();
        lemma_demand_by_species(front, need);
        assert(selected =~= front.push(selected.last()));
        vstd::seq_lib::to_multiset_build(front, selected.last());
    }
}

/// The demand for a need does not depend on the order in which the species
/// were selected.
pub proof fn lemma_demand_ignores_order(a: Seq<Species>, b: Seq<Species>, need: Need)
    requires
        a.to_multiset() == b.to_multiset(),
    ensures
        demand(a, need) == demand(b, need),
{
    lemma_demand_by_species(a, need);
    lemma_demand_by_species(b, need);
}

/// The place of an entry in the order of a ranking, as one number: entries
/// with a higher count come first, and among equal counts lower ranks.
spec fn place(entry: (Need, usize)) -> int {
    entry.0.spec_rank() - entry.1 * NEED_COUNT
}

proof fn lemma_place_orders(a: (Need, usize), b: (Need, usize))
    ensures
        precedes(a, b) <==> place(a) < place(b),
        place(a) == place(b) ==> a == b,
{
    lemma_rank_identifies(a.0, b.0);
    lemma_rank_identifies(b.0, a.0);
    assert(a.1 > b.1 ==> a.1 * NEED_COUNT >= b.1 * NEED_COUNT + NEED_COUNT) by (nonlinear_arith);
    assert(b.1 > a.1 ==> b.1 * NEED_COUNT >= a.1 * NEED_COUNT + NEED_COUNT) by (nonlinear_arith);
}

/// Two ascending sequences of numbers that hold the same numbers are one
/// sequence.
proof fn lemma_ascending_unique(a: Seq<int>, b: Seq<int>)
    requires
        forall|i: int, j: int| 0 <= i < j < a.len() ==> a[i] < a[j],
        forall|i: int, j: int| 0 <= i < j < b.len() ==> b[i] < b[j],
        forall|x: int| a.contains(x) <==> b.contains(x),
    ensures
        a == b,
    decreases a.len(),
{
    if a.len() == 0 {
        if b.len() > 0 {
            assert(b.contains(b[0]));
        }
        assert(a =~= b);
    } else {
        assert(a.contains(a.last()));
        assert(b.contains(a.last()));
        assert(b.len() > 0);
        assert(b.contains(b.last()));
        assert(a.contains(b.last()));
        assert(a.last() == b.last());
        let a0 = a.drop_last();
        let b0 = b.drop_last();
        assert forall|x: int| a0.contains(x) <==> b0.contains(x) by {
            if a0.contains(x) {
                let i = choose|i: int| 0 <= i < a0.len() && a0[i] == x;
                assert(a[i] == x);
                assert(a.contains(x));
                let j = choose|j: int| 0 <= j < b.len() && b[j] == x;
                assert(x < a.last());
                assert(b0[j] == x);
            }
            if b0.contains(x) {
                let i = choose|i: int| 0 <= i < b0.len() && b0[i] == x;
                assert(b[i] == x);
                assert(b.contains(x));
                let j = choose|j: int| 0 <= j < a.len() && a[j] == x;
                assert(x < b.last());
                assert(a0[j] == x);
            }
        }
        lemma_ascending_unique(a0, b0);
        assert(a =~= a0.push(a.last()));
        assert(b =~= b0.push(b.last()));
    }
}

/// A selection has no more than one ranking.
pub proof fn lemma_ranking_is_unique(
    selected: Seq<Species>,
    a: Seq<(Need, usize)>,
    b: Seq<(Need, usize)>,
)
    requires
        is_ranking(selected, a),
        is_ranking(selected, b),
    ensures
        a == b,
{
    let pa = Seq::new(a.len(), |i: int| place(a[i]));
    let pb = Seq::new(b.len(), |i: int| place(b[i]));
    assert forall|i: int, j: int| 0 <= i < j < pa.len() implies pa[i] < pa[j] by {
        lemma_place_orders(a[i], a[j]);
    }
    assert forall|i: int, j: int| 0 <= i < j < pb.len() implies pb[i] < pb[j] by {
        lemma_place_orders(b[i], b[j]);
    }
    assert forall|x: int| pa.contains(x) <==> pb.contains(x) by {
        if pa.contains(x) {
            let i = choose|i: int| 0 <= i < pa.len() && pa[i] == x;
            assert(lists(b, a[i].0));
            let j = choose|j: int| 0 <= j < b.len() && (#[trigger] b[j]).0 == a[i].0;
            assert(b[j] == a[i]);
            assert(pb[j] == x);
        }
        if pb.contains(x) {
            let i = choose|i: int| 0 <= i < pb.len() && pb[i] == x;
            assert(lists(a, b[i].0));
            let j = choose|j: int| 0 <= j < a.len() && (#[trigger] a[j]).0 == b[i].0;
            assert(a[j] == b[i]);
            assert(pa[j] == x);
        }
    }
    lemma_ascending_unique(pa, pb);
    assert(a.len() == b.len());
    assert forall|i: int| 0 <= i < a.len() implies a[i] == b[i] by {
        assert(pa[i] == pb[i]);
        lemma_place_orders(a[i], b[i]);
    }
    assert(a =~= b);
}

/// The entries for the needs of rank below `upto` that exactly `level` of the
/// selected species list, in ascending order of rank.
spec fn shared_by(selected: Seq<Species>, level: nat, upto: nat) -> Seq<(Need, usize)>
    decreases upto,
{
    if upto == 0 {
        Seq::empty()
    } else {
        let need = spec_all_needs()[upto - 1];
        let lower = shared_by(selected, level, (upto - 1) as nat);
        if demand(selected, need) == level {
            lower.push((need, level as usize))
        } else {
            lower
        }
    }
}

/// The entries for the needs that more than `level` of the selected species
/// list, in the order of a ranking.
spec fn shared_by_more(selected: Seq<Species>, level: nat) -> Seq<(Need, usize)>
    decreases selected.len() - level,
{
    if level >= selected.len() {
        Seq::empty()
    } else {
        shared_by_more(selected, level + 1) + shared_by(selected, level + 1, NEED_COUNT as nat)
    }
}

proof fn lemma_shared_by(selected: Seq<Species>, level: nat, upto: nat)
    requires
        upto <= NEED_COUNT,
        level <= usize::MAX,
    ensures
        forall|i: int|
            0 <= i < shared_by(selected, level, upto).len() ==> {
                let entry = #[trigger] shared_by(selected, level, upto)[i];
                entry.1 == level == demand(selected, entry.0) && entry.0.spec_rank() < upto
            },
        forall|k: int|
            0 <= k < upto && demand(selected, spec_all_needs()[k]) == level ==> lists(
                shared_by(selected, level, upto),
                #[trigger] spec_all_needs()[k],
            ),
        forall|i: int, j: int|
            0 <= i < j < shared_by(selected, level, upto).len() ==> precedes(
                #[trigger] shared_by(selected, level, upto)[i],
                #[trigger] shared_by(selected, level, upto)[j],
            ),
    decreases upto,
{
    if upto > 0 {
        let lower = shared_by(selected, level, (upto - 1) as nat);
        let all = shared_by(selected, level, upto);
        let need = spec_all_needs()[upto - 1];
        lemma_shared_by(selected, level, (upto - 1) as nat);
        lemma_rank_identifies(need, need);
        assert forall|k: int|
            0 <= k < upto && demand(selected, spec_all_needs()[k]) == level implies lists(
            all,
            #[trigger] spec_all_needs()[k],
        ) by {
            if k == upto - 1 {
                assert(all[all.len() - 1].0 == need);
            } else {
                assert(lists(lower, spec_all_needs()[k]));
                let i = choose|i: int|
                    0 <= i < lower.len() && (#[trigger] lower[i]).0 == spec_all_needs()[k];
                assert(all[i].0 == spec_all_needs()[k]);
            }
        }
    }
}

proof fn lemma_shared_by_more(selected: Seq<Species>, level: nat)
    requires
        selected.len() <= usize::MAX,
    ensures
        forall|i: int|
            0 <= i < shared_by_more(selected, level).len() ==> {
                let entry = #[trigger] shared_by_more(selected, level)[i];
                level < entry.1 == demand(selected, entry.0)
            },
        forall|need: Need|
            demand(selected, need) > level ==> lists(shared_by_more(selected, level), need),
        forall|i: int, j: int|
            0 <= i < j < shared_by_more(selected, level).len() ==> precedes(
                #[trigger] shared_by_more(selected, level)[i],
                #[trigger] shared_by_more(selected, level)[j],
            ),
    decreases selected.len() - level,
{
    if level >= selected.len() {
        assert forall|need: Need| demand(selected, need) > level implies lists(
            shared_by_more(selected, level),
            need,
        ) by {
            lemma_demand_is_bounded(selected, need);
        }
    } else {
        let higher = shared_by_more(selected, level + 1);
        let here = shared_by(selected, level + 1, NEED_COUNT as nat);
        let all = shared_by_more(selected, level);
        lemma_shared_by_more(selected, level + 1);
        lemma_shared_by(selected, level + 1, NEED_COUNT as nat);
        assert(all == higher + here);
        assert forall|need: Need| demand(selected, need) > level implies lists(all, need) by {
            lemma_rank_identifies(need, need);
            if demand(selected, need) > level + 1 {
                assert(lists(higher, need));
                let i = choose|i: int| 0 <= i < higher.len() && (#[trigger] higher[i]).0 == need;
                assert(all[i].0 == need);
            } else {
                assert(lists(here, spec_all_needs()[need.spec_rank() as int]));
                let i = choose|i: int| 0 <= i < here.len() && (#[trigger] here[i]).0 == need;
                assert(all[higher.len() + i].0 == need);
            }
        }
        assert forall|i: int, j: int| 0 <= i < j < all.len() implies precedes(
            #[trigger] all[i],
            #[trigger] all[j],
        ) by {
            if j < higher.len() {
                assert(precedes(higher[i], higher[j]));
            } else if i >= higher.len() {
                assert(precedes(here[i - higher.len()], here[j - higher.len()]));
            } else {
                assert(higher[i].1 > level + 1);
                assert(here[j - higher.len()].1 == level + 1);
            }
        }
        assert forall|i: int| 0 <= i < all.len() implies {
            let entry = #[trigger] all[i];
            level < entry.1 == demand(selected, entry.0)
        } by {
            if i < higher.len() {
                assert(all[i] == higher[i]);
            } else {
                assert(all[i] == here[i - higher.len()]);
            }
        }
    }
}

/// Every selection that a machine can hold has a ranking.
pub proof fn lemma_ranking_exists(selected: Seq<Species>)
    requires
        selected.len() <= usize::MAX,
    ensures
        is_ranking(selected, ranking_of(selected)),
{
    lemma_shared_by_more(selected, 0);
    assert(is_ranking(selected, shared_by_more(selected, 0)));
}

/// The ranking does not depend on the order in which the species were
/// selected.
pub proof fn lemma_ranking_ignores_order(a: Seq<Species>, b: Seq<Species>)
    requires
        a.to_multiset() == b.to_multiset(),
        a.len() <= usize::MAX,
    ensures
        ranking_of(a) == ranking_of(b),
{
    vstd::seq_lib::to_multiset_len(a);
    vstd::seq_lib::to_multiset_len(b);
    lemma_ranking_exists(a);
    lemma_ranking_exists(b);
    let ranking = ranking_of(a);
    assert forall|need: Need| demand(a, need) == demand(b, need) by {
        lemma_demand_ignores_order(a, b, need);
    }
    assert(is_ranking(b, ranking));
    lemma_ranking_is_unique(b, ranking, ranking_of(b));
}

/// With no species selected, the ranking is empty.
pub proof fn lemma_nothing_selected_nothing_ranked(ranking: Seq<(Need, usize)>)
    requires
        is_ranking(Seq::empty(), ranking),
    ensures
        ranking.len() == 0,
{
    if ranking.len() > 0 {
        assert(ranking[0].1 == demand(Seq::empty(), ranking[0].0));
    }
}

/// Counts, for every need, the selected species that list it. The count of
/// the need of rank `k` stands at index `k`.
fn count_demand(selected: &[Species]) -> (counts: Vec<usize>)
    ensures
        counts@.len() == NEED_COUNT,
        forall|k: int|
            0 <= k < NEED_COUNT ==> (#[trigger] counts@[k]) == demand(
                selected@,
                spec_all_needs()[k],
            ),
{
    let mut counts: Vec<usize> = Vec::new();
    while counts.len() < NEED_COUNT
        invariant
            counts@.len() <= NEED_COUNT,
            forall|k: int| 0 <= k < counts@.len() ==> counts@[k] == 0,
        decreases NEED_COUNT - counts@.len(),
    {
        counts.push(0);
    }
    let mut s: usize = 0;
    while s < selected.len()
        invariant
            s <= selected@.len(),
            counts@.len() == NEED_COUNT,
            forall|k: int|
                0 <= k < NEED_COUNT ==> (#[trigger] counts@[k]) == demand(
                    selected@.take(s as int),
                    spec_all_needs()[k],
                ),
        decreases selected@.len() - s,
    {
        let needs = selected[s].needs();
        let ghost before = selected@.take(s as int);
        let mut n: usize = 0;
        while n < needs.len()
            invariant
                s < selected@.len() <= usize::MAX,
                n <= needs@.len(),
                needs@ == selected@[s as int].spec_needs(),
                before == selected@.take(s as int),
                counts@.len() == NEED_COUNT,
                forall|k: int|
                    0 <= k < NEED_COUNT ==> (#[trigger] counts@[k]) == demand(
                        before,
                        spec_all_needs()[k],
                    ) + if needs@.take(n as int).contains(spec_all_needs()[k]) {
                        1nat
                    } else {
                        0nat
                    },
            decreases needs@.len() - n,
        {
            let need = needs[n];
            let rank: usize = need.rank();
            proof {
                let shorter = needs@.take(n as int);
                let longer = needs@.take(n + 1);
                lemma_demand_is_bounded(before, need);
                if shorter.contains(need) {
                    let m = choose|m: int| 0 <= m < shorter.len() && shorter[m] == need;
                    lemma_needs_listed_once(selected@[s as int], m, n as int);
                }
                assert forall|k: int| 0 <= k < NEED_COUNT implies longer.contains(
                    #[trigger] spec_all_needs()[k],
                ) == (k == rank || shorter.contains(spec_all_needs()[k])) by {
                    let other = spec_all_needs()[k];
                    lemma_rank_identifies(other, need);
                    if longer.contains(other) {
                        let m = choose|m: int| 0 <= m < longer.len() && longer[m] == other;
                        if m < n {
                            assert(shorter[m] == other);
                        }
                    }
                    if shorter.contains(other) {
                        let m = choose|m: int| 0 <= m < shorter.len() && shorter[m] == other;
                        assert(longer[m] == other);
                    }
                    if k == rank {
                        assert(longer[n as int] == other);
                    }
                }
                assert(counts@[rank as int] == demand(before, need));
            }
            counts.set(rank, counts[rank] + 1);
            n += 1;
        }
        proof {
            assert(needs@.take(n as int) =~= needs@);
            assert(selected@.take(s + 1).drop_last() =~= before);
            assert(selected@.take(s + 1).last() == selected@[s as int]);
        }
        s += 1;
    }
    assert(selected@.take(s as int) =~= selected@);
    counts
}

/// Ranks the needs of the selected species by the number of species that
/// share them.
///
/// A need appears once for all the species that list it, with their number,
/// which is never more than the number of species selected. Needs that more
/// species share come first; needs shared by equally many come in ascending
/// order of the needs. With no species selected the ranking is empty.
pub fn aggregate(selected: &[Species]) -> (out: Aggregation)
    ensures
        out.total == selected@.len(),
        is_ranking(selected@, out.ranking@),
        out.ranking@ == ranking_of(selected@),
        forall|i: int| 0 <= i < out.ranking@.len() ==> (#[trigger] out.ranking@[i]).1 <= out.total,
        selected@.len() == 0 ==> out.ranking@.len() == 0,
{
    let catalog = all_needs();
    let counts = count_demand(selected);
    let total: usize = selected.len();
    let mut ranking: Vec<(Need, usize)> = Vec::new();
    let mut level: usize = total;
    proof {
        assert forall|k: int| 0 <= k < NEED_COUNT implies (#[trigger] counts@[k]) <= total by {
            lemma_demand_is_bounded(selected@, spec_all_needs()[k]);
        }
    }
    while level >= 1
        invariant
            level <= total,
            catalog@ == spec_all_needs(),
            counts@.len() == NEED_COUNT,
            forall|k: int|
                0 <= k < NEED_COUNT ==> (#[trigger] counts@[k]) == demand(
                    selected@,
                    spec_all_needs()[k],
                ),
            forall|i: int|
                0 <= i < ranking@.len() ==> level < (#[trigger] ranking@[i]).1 == demand(
                    selected@,
                    ranking@[i].0,
                ),
            forall|k: int|
                0 <= k < NEED_COUNT && counts@[k] > level ==> lists(
                    ranking@,
                    #[trigger] spec_all_needs()[k],
                ),
            forall|i: int, j: int|
                0 <= i < j < ranking@.len() ==> precedes(
                    #[trigger] ranking@[i],
                    #[trigger] ranking@[j],
                ),
        decreases level,
    {
        let mut k: usize = 0;
        while k < NEED_COUNT
            invariant
                1 <= level <= total,
                k <= NEED_COUNT,
                catalog@ == spec_all_needs(),
                counts@.len() == NEED_COUNT,
                forall|m: int|
                    0 <= m < NEED_COUNT ==> (#[trigger] counts@[m]) == demand(
                        selected@,
                        spec_all_needs()[m],
                    ),
                forall|i: int|
                    0 <= i < ranking@.len() ==> (#[trigger] ranking@[i]).1 == demand(
                        selected@,
                        ranking@[i].0,
                    ) && (ranking@[i].1 > level || (ranking@[i].1 == level
                        && ranking@[i].0.spec_rank() < k)),
                forall|m: int|
                    0 <= m < NEED_COUNT && (counts@[m] > level || (counts@[m] == level && m < k))
                        ==> lists(ranking@, #[trigger] spec_all_needs()[m]),
                forall|i: int, j: int|
                    0 <= i < j < ranking@.len() ==> precedes(
                        #[trigger] ranking@[i],
                        #[trigger] ranking@[j],
                    ),
            decreases NEED_COUNT - k,
        {
            let ghost earlier = ranking@;
            if counts[k] == level {
                ranking.push((catalog[k], level));
                proof {
                    lemma_rank_identifies(catalog@[k as int], catalog@[k as int]);
                    assert(ranking@[earlier.len() as int].0 == spec_all_needs()[k as int]);
                }
            }
            proof {
                assert forall|m: int|
                    0 <= m < NEED_COUNT && (counts@[m] > level || (counts@[m] == level && m < k
                        + 1)) implies lists(ranking@, #[trigger] spec_all_needs()[m]) by {
                    if m == k && counts@[m] == level {
                        assert(ranking@[earlier.len() as int].0 == spec_all_needs()[m]);
                    } else {
                        assert(lists(earlier, spec_all_needs()[m]));
                        let i = choose|i: int|
                            0 <= i < earlier.len() && (#[trigger] earlier[i]).0
                                == spec_all_needs()[m];
                        assert(ranking@[i].0 == spec_all_needs()[m]);
                    }
                }
            }
            k += 1;
        }
        level -= 1;
    }
    proof {
        assert forall|need: Need| demand(selected@, need) >= 1 implies lists(ranking@, need) by {
            lemma_rank_identifies(need, need);
            assert(counts@[need.spec_rank() as int] >= 1);
        }
        assert forall|i: int| 0 <= i < ranking@.len() implies (#[trigger] ranking@[i]).1
            <= total by {
            lemma_demand_is_bounded(selected@, ranking@[i].0);
        }
        assert(is_ranking(selected@, ranking@));
        lemma_ranking_is_unique(selected@, ranking@, ranking_of(selected@));
        if selected@.len() == 0 && ranking@.len() > 0 {
            lemma_demand_is_bounded(selected@, ranking@[0].0);
        }
    }
    Aggregation { ranking, total }
}

} // verus!
