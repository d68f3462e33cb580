//! Lists: how their items are viewed, what they hold of each item, and how
//! they are grouped.

use crate::ids::Id;
use std::collections::HashMap;
use vstd::prelude::*;

verus! {

/// The items of a list, each with its texts as characters.
pub open spec fn views<T: View>(items: Seq<T>) -> Seq<T::V> {
    Seq::new(items.len(), |i: int| items[i]@)
}

/// The identifiers that `id_of` gives for the items of a list, in order.
pub(crate) fn ids_of<T, F: Fn(&T) -> Id>(items: &[T], id_of: F) -> (r: Vec<Id>)
    requires
        forall|item: &T| #[trigger] id_of.requires((item,)),
    ensures
        r@.len() == items@.len(),
        forall|i: int|
            0 <= i < items@.len() ==> id_of.ensures((&items@[i],), #[trigger] r@[i]),
{
    let mut ids: Vec<Id> = Vec::new();
    let mut i: usize = 0;
    while i < items.len()
        invariant
            i <= items.len(),
            ids@.len() == i,
            forall|item: &T| #[trigger] id_of.requires((item,)),
            forall|k: int| 0 <= k < i ==> id_of.ensures((&items@[k],), #[trigger] ids@[k]),
        decreases items.len() - i,
    {
        ids.push(id_of(&items[i]));
        i = i + 1;
    }
    ids
}

/// Something that belongs to a match or a game.
pub trait Grouped {
    /// What the item belongs to.
    spec fn group_id(&self) -> Id;

    /// What the item belongs to.
    fn belongs_to(&self) -> (r: Id)
        ensures
            r == self.group_id(),
    ;
}

/// The items that belong to the same thing, in the order in which they stand.
pub open spec fn belonging<T: Grouped>(items: Seq<T>, id: Id) -> Seq<T> {
    items.filter(|item: T| item.group_id() == id)
}

/// What a grouping holds for an identifier: nothing when it has no group.
pub open spec fn group<T>(groups: Map<u128, Vec<T>>, id: Id) -> Seq<T> {
    if groups.contains_key(id.bits) {
        groups[id.bits]@
    } else {
        Seq::empty()
    }
}

/// What a grouping holds for each identifier.
pub open spec fn grouped<T>(groups: Map<u128, Vec<T>>) -> spec_fn(Id) -> Seq<T> {
    |id: Id| group(groups, id)
}

/// Groups items by what they belong to.
pub(crate) fn group_items<T: Grouped>(items: Vec<T>) -> (r: HashMap<u128, Vec<T>>)
    ensures
        forall|id: Id| #[trigger] group(r@, id) == belonging(items@, id),
{
    broadcast use vstd::std_specs::hash::group_hash_axioms;

    let ghost all = items@;
    let mut groups: HashMap<u128, Vec<T>> = HashMap::new();
    assert forall|id: Id| #[trigger] group(groups@, id) == belonging(all.take(0), id) by {
        reveal(Seq::filter);
        assert(all.take(0) =~= Seq::<T>::empty());
    }
    for item in it: items
        invariant
            it.seq() == all,
            forall|id: Id|
                #[trigger] group(groups@, id) == belonging(all.take(it.index() as int), id),
    {
        let ghost before = groups@;
        let ghost i = it.index() as int;
        let ghost added = item;
        let key: u128 = item.belongs_to().bits;
        let slot: &mut Vec<T> = groups.entry(key).or_insert(Vec::new());
        slot.push(item);
        assert forall|id: Id| #[trigger] group(groups@, id) == belonging(all.take(i + 1), id) by {
            reveal(Seq::filter);
            assert(all.take(i + 1).drop_last() =~= all.take(i));
            assert(group(before, id) == belonging(all.take(i), id));
            assert(id == added.group_id() <==> id.bits == added.group_id().bits);
        }
    }
    assert(all.take(all.len() as int) =~= all);
    groups
}

pub(crate) proof fn belonging_is_told_item_by_item<T: Grouped>(
    items: Seq<T>,
    id: Id,
    ours: spec_fn(T) -> bool,
)
    requires
        forall|item: T| #[trigger] ours(item) <==> item.group_id() == id,
    ensures
        belonging(items, id) == items.filter(ours),
    decreases items.len(),
{
    reveal(Seq::filter);
    if items.len() > 0 {
        belonging_is_told_item_by_item(items.drop_last(), id, ours);
        assert(ours(items.last()) <==> items.last().group_id() == id);
    }
}

} // verus!
