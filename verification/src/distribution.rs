use vstd::prelude::*;
use crate::amount::Amount;
use crate::identity::Identity;
use crate::ledger::balance_in;

verus! {

/// The sum of all amounts of a distribution list.
pub open spec fn distributed_total(dist: Seq<(Identity, Amount)>) -> nat
    decreases dist.len(),
{
    if dist.len() == 0 {
        0
    } else {
        distributed_total(dist.drop_last()) + dist.last().1@
    }
}

/// The balances that crediting every pair of a distribution list, in
/// order, leaves on an empty ledger: each identity of the list holds the
/// sum of the amounts listed for it.
pub open spec fn seeded_balances(dist: Seq<(Identity, Amount)>) -> Map<Identity, nat>
    decreases dist.len(),
{
    if dist.len() == 0 {
        Map::empty()
    } else {
        let before = seeded_balances(dist.drop_last());
        let id = dist.last().0;
        before.insert(id, balance_in(before, id) + dist.last().1@)
    }
}

/// The total of a prefix of a list never exceeds the total of the list.
pub proof fn lemma_prefix_total(dist: Seq<(Identity, Amount)>, n: int)
    requires
        0 <= n <= dist.len(),
    ensures
        distributed_total(dist.take(n)) <= distributed_total(dist),
    decreases dist.len(),
{
    if n == dist.len() {
        assert(dist.take(n) =~= dist);
    } else {
        assert(dist.drop_last().take(n) =~= dist.take(n));
        lemma_prefix_total(dist.drop_last(), n);
    }
}

/// Taking one more pair of a list adds that pair's amount to the total
/// and credits it to that pair's identity.
pub proof fn lemma_prefix_step(dist: Seq<(Identity, Amount)>, n: int)
    requires
        0 <= n < dist.len(),
    ensures
        distributed_total(dist.take(n + 1)) == distributed_total(dist.take(n)) + dist[n].1@,
        seeded_balances(dist.take(n + 1)) == seeded_balances(dist.take(n)).insert(
            dist[n].0,
            balance_in(seeded_balances(dist.take(n)), dist[n].0) + dist[n].1@,
        ),
{
    assert(dist.take(n + 1).drop_last() =~= dist.take(n));
    assert(dist.take(n + 1).last() == dist[n]);
}

/// No identity is credited more than the whole list distributes.
pub proof fn lemma_balance_within_total(dist: Seq<(Identity, Amount)>, id: Identity)
    ensures
        balance_in(seeded_balances(dist), id) <= distributed_total(dist),
    decreases dist.len(),
{
    if dist.len() > 0 {
        lemma_balance_within_total(dist.drop_last(), id);
        lemma_balance_within_total(dist.drop_last(), dist.last().0);
    }
}

/// The sum of the amounts that a distribution list names for one
/// identity.
pub open spec fn credited_to(dist: Seq<(Identity, Amount)>, id: Identity) -> nat
    decreases dist.len(),
{
    if dist.len() == 0 {
        0
    } else if dist.last().0 == id {
        credited_to(dist.drop_last(), id) + dist.last().1@
    } else {
        credited_to(dist.drop_last(), id)
    }
}

/// Seeding gives every identity the sum of the amounts listed for it,
/// duplicates added up, and records a balance for exactly the identities
/// that the list names.
pub proof fn lemma_seeded_balance_is_sum(dist: Seq<(Identity, Amount)>, id: Identity)
    ensures
        balance_in(seeded_balances(dist), id) == credited_to(dist, id),
        seeded_balances(dist).dom().contains(id) <==> exists|i: int|
            0 <= i < dist.len() && (#[trigger] dist[i]).0 == id,
    decreases dist.len(),
{
    if dist.len() > 0 {
        let front = dist.drop_last();
        lemma_seeded_balance_is_sum(front, id);
        if exists|i: int| 0 <= i < front.len() && (#[trigger] front[i]).0 == id {
            let i = choose|i: int| 0 <= i < front.len() && (#[trigger] front[i]).0 == id;
            assert(dist[i].0 == id);
        }
        if dist.last().0 == id {
            assert(dist[dist.len() - 1].0 == id);
        }
        if exists|i: int| 0 <= i < dist.len() && (#[trigger] dist[i]).0 == id {
            let i = choose|i: int| 0 <= i < dist.len() && (#[trigger] dist[i]).0 == id;
            if i < front.len() {
                assert(front[i].0 == id);
            }
        }
    }
}

} // verus!
