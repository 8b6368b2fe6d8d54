//! The registry's data: the items in the order in which they were minted,
//! each with the points it has accrued.

use crate::address::Address;
use vstd::prelude::*;

verus! {

/// One minted item and its points.
#[derive(Clone, Copy, Debug, PartialEq, Eq)]
pub struct Items {
    pub mint: Address,
    pub points: u64,
}

/// The registry: its items and the parameter its authority is derived with.
#[derive(Clone, Debug, PartialEq, Eq)]
pub struct Collection {
    pub items: Vec<Items>,
    pub bump: u8,
}

/// Bytes that the registry's storage takes with `n` items: an 8-byte header,
/// a 4-byte count, 40 bytes for each item and one byte for the bump.
pub open spec fn required_space(n: nat) -> nat {
    8 + 4 + 40 * n + 1
}

/// Whether no two items have the same identifier.
pub open spec fn distinct(items: Seq<Items>) -> bool {
    forall|i: int, j: int|
        0 <= i < j < items.len() ==> (#[trigger] items[i]).mint@ != (#[trigger] items[j]).mint@
}

/// Whether some item has the identifier.
pub open spec fn holds(items: Seq<Items>, id: Seq<u8>) -> bool {
    exists|i: int| 0 <= i < items.len() && (#[trigger] items[i]).mint@ == id
}

/// Whether the item at `i` is the first with the identifier.
pub open spec fn found_at(items: Seq<Items>, id: Seq<u8>, i: int) -> bool {
    &&& 0 <= i < items.len()
    &&& items[i].mint@ == id
    &&& forall|j: int| 0 <= j < i ==> (#[trigger] items[j]).mint@ != id
}

/// The place of the first item with the identifier, where there is one.
pub open spec fn item_index(items: Seq<Items>, id: Seq<u8>) -> int {
    choose|i: int| found_at(items, id, i)
}

/// The first item with an identifier is where `item_index` says.
pub proof fn lemma_found_at(items: Seq<Items>, id: Seq<u8>, i: int)
    requires
        found_at(items, id, i),
    ensures
        holds(items, id),
        item_index(items, id) == i,
{
    let k = item_index(items, id);
    assert(found_at(items, id, k));
    if k < i {
        assert(items[k].mint@ != id);
    } else if i < k {
        assert(items[i].mint@ != id);
    }
}

/// Among items of which one has the identifier, one is the first to have it.
pub proof fn lemma_first_item_exists(items: Seq<Items>, id: Seq<u8>)
    requires
        holds(items, id),
    ensures
        found_at(items, id, item_index(items, id)),
    decreases items.len(),
{
    let k = choose|k: int| 0 <= k < items.len() && (#[trigger] items[k]).mint@ == id;
    let front = items.subrange(0, k);
    if holds(front, id) {
        lemma_first_item_exists(front, id);
        let i = item_index(front, id);
        assert(front[i] == items[i]);
        assert forall|j: int| 0 <= j < i implies (#[trigger] items[j]).mint@ != id by {
            assert(front[j] == items[j]);
        }
        assert(found_at(items, id, i));
    } else {
        assert forall|j: int| 0 <= j < k implies (#[trigger] items[j]).mint@ != id by {
            assert(front[j] == items[j]);
        }
        assert(found_at(items, id, k));
    }
}

/// The sum of the points of all items.
pub open spec fn total_points(items: Seq<Items>) -> nat
    decreases items.len(),
{
    if items.len() == 0 {
        0
    } else {
        total_points(items.drop_last()) + items.last().points as nat
    }
}

/// Whether every item can take `per_item` more points within 64 bits.
pub open spec fn can_credit(items: Seq<Items>, per_item: u64) -> bool {
    forall|i: int| 0 <= i < items.len() ==> (#[trigger] items[i]).points + per_item <= u64::MAX
}

/// The items with `per_item` points added to each.
pub open spec fn credited(items: Seq<Items>, per_item: u64) -> Seq<Items> {
    Seq::new(
        items.len(),
        |i: int| Items { mint: items[i].mint, points: (items[i].points + per_item) as u64 },
    )
}

/// The items with the points of the one at `i` set to zero.
pub open spec fn redeemed(items: Seq<Items>, i: int) -> Seq<Items> {
    items.update(i, Items { mint: items[i].mint, points: 0 })
}

/// Crediting every item raises the total by the credit times the number of items.
pub proof fn lemma_total_credited(items: Seq<Items>, per_item: u64)
    requires
        can_credit(items, per_item),
    ensures
        total_points(credited(items, per_item)) == total_points(items) + items.len() * per_item,
    decreases items.len(),
{
    let after = credited(items, per_item);
    if items.len() > 0 {
        let front = items.drop_last();
        assert(can_credit(front, per_item)) by {
            assert forall|i: int| 0 <= i < front.len() implies (#[trigger] front[i]).points
                + per_item <= u64::MAX by {
                assert(front[i] == items[i]);
            }
        }
        lemma_total_credited(front, per_item);
        assert(after.drop_last() =~= credited(front, per_item));
        assert(after.last().points == items.last().points + per_item);
        assert(items.len() * per_item == front.len() * per_item + per_item) by (nonlinear_arith)
            requires
                items.len() == front.len() + 1,
        ;
    }
}

/// Setting one item's points to zero lowers the total by exactly those points.
pub proof fn lemma_total_redeemed(items: Seq<Items>, i: int)
    requires
        0 <= i < items.len(),
    ensures
        total_points(redeemed(items, i)) + items[i].points == total_points(items),
    decreases items.len(),
{
    let after = redeemed(items, i);
    if i == items.len() - 1 {
        assert(after.drop_last() =~= items.drop_last());
    } else {
        let front = items.drop_last();
        lemma_total_redeemed(front, i);
        assert(after.drop_last() =~= redeemed(front, i));
        assert(after.last() == items.last());
    }
}

/// No single item has more points than all items together.
pub proof fn lemma_points_within_total(items: Seq<Items>, i: int)
    requires
        0 <= i < items.len(),
    ensures
        items[i].points <= total_points(items),
    decreases items.len(),
{
    if i < items.len() - 1 {
        lemma_points_within_total(items.drop_last(), i);
    }
}

impl Collection {
    /// An empty registry.
    pub fn new(bump: u8) -> (r: Collection)
        ensures
            r.items@ == Seq::<Items>::empty(),
            r.bump == bump,
    {
        Collection { items: Vec::new(), bump }
    }

    /// The place of the first item with the identifier, if there is one.
    pub fn position(&self, id: &Address) -> (r: Option<usize>)
        ensures
            match r {
                Some(i) => found_at(self.items@, id@, i as int),
                None => !holds(self.items@, id@),
            },
    {
        let mut i: usize = 0;
        while i < self.items.len()
            invariant
                i <= self.items@.len(),
                forall|j: int| 0 <= j < i ==> (#[trigger] self.items@[j]).mint@ != id@,
            decreases self.items@.len() - i,
        {
            if self.items[i].mint.same(id) {
                return Some(i);
            }
            i += 1;
        }
        None
    }

    /// The items with `per_item` points added to each; `None` where one of
    /// them would pass 64 bits.
    pub fn credited_items(&self, per_item: u64) -> (r: Option<Vec<Items>>)
        ensures
            match r {
                Some(next) => can_credit(self.items@, per_item) && next@ == credited(
                    self.items@,
                    per_item,
                ),
                None => !can_credit(self.items@, per_item),
            },
    {
        let mut next: Vec<Items> = Vec::new();
        let mut i: usize = 0;
        while i < self.items.len()
            invariant
                i <= self.items@.len(),
                next@.len() == i,
                can_credit(self.items@.subrange(0, i as int), per_item),
                forall|j: int|
                    0 <= j < i ==> next@[j] == (Items {
                        mint: self.items@[j].mint,
                        points: (self.items@[j].points + per_item) as u64,
                    }),
            decreases self.items@.len() - i,
        {
            let item = self.items[i];
            match item.points.checked_add(per_item) {
                Some(points) => {
                    next.push(Items { mint: item.mint, points });
                },
                None => {
                    return None;
                },
            }
            assert forall|j: int| 0 <= j < i + 1 implies (#[trigger] self.items@.subrange(
                0,
                i + 1,
            )[j]).points + per_item <= u64::MAX by {
                if j < i {
                    assert(self.items@.subrange(0, i as int)[j] == self.items@[j]);
                }
            }
            i += 1;
        }
        assert(self.items@.subrange(0, i as int) =~= self.items@);
        assert(next@ =~= credited(self.items@, per_item));
        Some(next)
    }
}

} // verus!
