//! Loot drop resolution: one independent weighted trial per table entry.
//!
//! Each entry is awarded with probability `chance / total`, where `total` is
//! the sum of all weights: a single uniform draw from `[0, total)` is made
//! per entry and the item drops when the draw lands below its own weight.
//! This keeps relative weights the only thing that matters and lets any
//! number of items drop from one kill.

use crate::combat::{DropTable, ItemId};
use crate::rng::rand_below;
use vstd::prelude::*;

verus! {

/// The sum of a table's weights.
pub open spec fn sum_weights(chances: Seq<u32>) -> int
    decreases chances.len(),
{
    if chances.len() == 0 {
        0
    } else {
        sum_weights(chances.drop_last()) + chances.last()
    }
}

/// Which items a table yields for a given sequence of draws: entry `i` drops
/// exactly when `draws[i] < chances[i]`, and the yielded items keep table
/// order.
pub open spec fn drops_of(items: Seq<ItemId>, chances: Seq<u32>, draws: Seq<u64>) -> Seq<ItemId>
    recommends
        items.len() == chances.len(),
        draws.len() == items.len(),
    decreases items.len(),
{
    if items.len() == 0 {
        Seq::empty()
    } else {
        let rest = drops_of(items.drop_last(), chances.drop_last(), draws.drop_last());
        if draws[items.len() - 1] < chances[items.len() - 1] {
            rest.push(items.last())
        } else {
            rest
        }
    }
}

/// The item appears somewhere in the table with a strictly positive weight.
pub open spec fn from_positive_entry(items: Seq<ItemId>, chances: Seq<u32>, it: ItemId) -> bool {
    exists|i: int| 0 <= i < items.len() && #[trigger] items[i] == it && chances[i] > 0
}

/// A zero-weight entry never drops: every item a table yields, for any
/// draws whatever, stands in the table with a strictly positive weight.
pub proof fn lemma_drops_have_positive_weight(
    items: Seq<ItemId>,
    chances: Seq<u32>,
    draws: Seq<u64>,
)
    requires
        items.len() == chances.len(),
        draws.len() == items.len(),
    ensures
        forall|k: int|
            0 <= k < drops_of(items, chances, draws).len() ==> #[trigger] from_positive_entry(
                items,
                chances,
                drops_of(items, chances, draws)[k],
            ),
    decreases items.len(),
{
    if items.len() > 0 {
        lemma_drops_have_positive_weight(
            items.drop_last(),
            chances.drop_last(),
            draws.drop_last(),
        );
        let whole = drops_of(items, chances, draws);
        let rest = drops_of(items.drop_last(), chances.drop_last(), draws.drop_last());
        assert forall|k: int| 0 <= k < whole.len() implies #[trigger] from_positive_entry(
            items,
            chances,
            whole[k],
        ) by {
            if k < rest.len() {
                assert(from_positive_entry(items.drop_last(), chances.drop_last(), rest[k]));
                let i = choose|i: int|
                    0 <= i < items.drop_last().len() && #[trigger] items.drop_last()[i] == rest[k]
                        && chances.drop_last()[i] > 0;
                assert(0 <= i < items.len() && items[i] == whole[k] && chances[i] > 0);
            } else {
                let last = items.len() - 1;
                assert(0 <= last < items.len() && items[last] == whole[k] && chances[last] > 0);
            }
        }
    }
}

/// A table whose weights are all zero yields nothing, for any draws.
pub proof fn lemma_all_zero_weights_yield_nothing(
    items: Seq<ItemId>,
    chances: Seq<u32>,
    draws: Seq<u64>,
)
    requires
        items.len() == chances.len(),
        draws.len() == items.len(),
        forall|i: int| 0 <= i < chances.len() ==> chances[i] == 0,
    ensures
        drops_of(items, chances, draws).len() == 0,
    decreases items.len(),
{
    if items.len() > 0 {
        lemma_all_zero_weights_yield_nothing(
            items.drop_last(),
            chances.drop_last(),
            draws.drop_last(),
        );
    }
}

/// The sum of `n` weights lies in `[0, n * u32::MAX]`.
proof fn lemma_sum_weights_bounds(chances: Seq<u32>)
    ensures
        0 <= sum_weights(chances) <= chances.len() * 0xffff_ffff,
    decreases chances.len(),
{
    if chances.len() > 0 {
        lemma_sum_weights_bounds(chances.drop_last());
    }
}

/// The running sum grows by exactly the next weight.
proof fn lemma_sum_weights_step(chances: Seq<u32>, i: int)
    requires
        0 <= i < chances.len(),
    ensures
        sum_weights(chances.take(i + 1)) == sum_weights(chances.take(i)) + chances[i],
{
    assert(chances.take(i + 1).drop_last() =~= chances.take(i));
}

impl DropTable {
    /// The sum of this table's weights; an entry's drop probability is its
    /// own weight over this total.
    pub open spec fn total_weight_spec(self) -> int {
        sum_weights(self.chances@)
    }

    /// Sums the weights. The length bound keeps the sum inside `u64`.
    pub fn total_weight(&self) -> (t: u64)
        requires
            self.chances@.len() <= 0xffff_ffff,
        ensures
            t == self.total_weight_spec(),
    {
        let mut total: u64 = 0;
        let mut i: usize = 0;
        while i < self.chances.len()
            invariant
                i <= self.chances@.len(),
                self.chances@.len() <= 0xffff_ffff,
                total == sum_weights(self.chances@.take(i as int)),
                total <= i * 0xffff_ffff,
            decreases self.chances@.len() - i,
        {
            proof {
                lemma_sum_weights_step(self.chances@, i as int);
            }
            total = total + self.chances[i] as u64;
            i = i + 1;
        }
        proof {
            assert(self.chances@.take(self.chances@.len() as int) =~= self.chances@);
        }
        total
    }
}

/// Resolves a drop table against an already-drawn sequence of uniform draws,
/// one per entry: entry `i` is awarded exactly when `draws[i] < chances[i]`.
pub fn resolve_drops_with(table: &DropTable, draws: &Vec<u64>) -> (r: Vec<ItemId>)
    requires
        table.wf(),
        draws@.len() == table.items@.len(),
    ensures
        r@ == drops_of(table.items@, table.chances@, draws@),
{
    let mut r: Vec<ItemId> = Vec::new();
    let mut i: usize = 0;
    while i < table.items.len()
        invariant
            table.wf(),
            draws@.len() == table.items@.len(),
            i <= table.items@.len(),
            r@ == drops_of(
                table.items@.take(i as int),
                table.chances@.take(i as int),
                draws@.take(i as int),
            ),
        decreases table.items@.len() - i,
    {
        proof {
            assert(table.items@.take(i + 1).drop_last() =~= table.items@.take(i as int));
            assert(table.chances@.take(i + 1).drop_last() =~= table.chances@.take(i as int));
            assert(draws@.take(i + 1).drop_last() =~= draws@.take(i as int));
        }
        if draws[i] < table.chances[i] as u64 {
            r.push(table.items[i]);
        }
        i = i + 1;
    }
    proof {
        assert(table.items@.take(table.items@.len() as int) =~= table.items@);
        assert(table.chances@.take(table.chances@.len() as int) =~= table.chances@);
        assert(draws@.take(draws@.len() as int) =~= draws@);
    }
    r
}

/// Resolves which items a defeated enemy's table awards, drawing one uniform
/// value from `[0, total_weight)` per entry from the process-wide random
/// source.
///
/// Whatever the draws were: every awarded item stands in the table with a
/// strictly positive weight, an all-zero-weight (or empty) table awards
/// nothing, and the result is exactly what `resolve_drops_with` yields for
/// some draw sequence drawn strictly below the total weight — so an entry
/// holding the whole weight is always awarded. Combatant state is never
/// read.
pub fn resolve_drops(table: &DropTable) -> (r: Vec<ItemId>)
    requires
        table.wf(),
        table.chances@.len() <= 0xffff_ffff,
    ensures
        forall|k: int|
            0 <= k < r@.len() ==> #[trigger] from_positive_entry(
                table.items@,
                table.chances@,
                r@[k],
            ),
        table.total_weight_spec() == 0 ==> r@.len() == 0,
        table.total_weight_spec() > 0 ==> exists|draws: Seq<u64>|
            draws.len() == table.items@.len() && (forall|i: int|
                0 <= i < draws.len() ==> draws[i] < table.total_weight_spec()) && r@ == drops_of(
                table.items@,
                table.chances@,
                draws,
            ),
{
    let total = table.total_weight();
    if total == 0 {
        let r: Vec<ItemId> = Vec::new();
        return r;
    }
    let mut draws: Vec<u64> = Vec::new();
    let mut i: usize = 0;
    while i < table.items.len()
        invariant
            total >= 1,
            total == table.total_weight_spec(),
            i <= table.items@.len(),
            draws@.len() == i,
            forall|j: int| 0 <= j < i ==> draws@[j] < total,
        decreases table.items@.len() - i,
    {
        draws.push(rand_below(total));
        i = i + 1;
    }
    let r = resolve_drops_with(table, &draws);
    proof {
        lemma_drops_have_positive_weight(table.items@, table.chances@, draws@);
        assert(draws@.len() == table.items@.len() && (forall|i: int|
            0 <= i < draws@.len() ==> draws@[i] < table.total_weight_spec()) && r@ == drops_of(
            table.items@,
            table.chances@,
            draws@,
        ));
    }
    r
}

} // verus!
