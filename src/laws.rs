//! Properties of sequences of appends, stated over the list's model.
use vstd::prelude::*;
use crate::encoding::{encoded_record_len, lemma_items_len_push};
use crate::record::ToDoListView;

verus! {

/// The list after attempting to append each of `items` in turn, as `new_task` does.
pub open spec fn after_appends(v: ToDoListView, items: Seq<Seq<char>>) -> ToDoListView
    decreases items.len(),
{
    if items.len() == 0 {
        v
    } else {
        after_appends(v, items.drop_last()).append_step(items.last())
    }
}

/// A successful append adds exactly one item at the end and keeps every
/// earlier item in its place.
pub proof fn lemma_append_grows_by_one(v: ToDoListView, item: Seq<char>)
    requires
        v.fits(item),
    ensures
        v.append_step(item).items.len() == v.items.len() + 1,
        forall|i: int| 0 <= i < v.items.len() ==> #[trigger] v.append_step(item).items[i] == v.items[i],
        v.append_step(item).items.last() == item,
{
}

/// A refused append leaves the list exactly as it was.
pub proof fn lemma_refused_append_changes_nothing(v: ToDoListView, item: Seq<char>)
    requires
        !v.fits(item),
    ensures
        v.append_step(item) == v,
{
}

/// However many appends are attempted, the list stays within its capacity,
/// and its owner, name and capacity never change.
pub proof fn lemma_appends_stay_within_capacity(v: ToDoListView, items: Seq<Seq<char>>)
    requires
        v.within_capacity(),
    ensures
        after_appends(v, items).within_capacity(),
        after_appends(v, items).owner == v.owner,
        after_appends(v, items).name == v.name,
        after_appends(v, items).capacity == v.capacity,
    decreases items.len(),
{
    if items.len() > 0 {
        lemma_appends_stay_within_capacity(v, items.drop_last());
    }
}

/// When all of `items` fit, appending them one by one yields the earlier
/// items followed by `items`, in the order given.
pub proof fn lemma_appends_keep_order(v: ToDoListView, items: Seq<Seq<char>>)
    requires
        encoded_record_len(v.name, v.items + items) <= v.capacity,
    ensures
        after_appends(v, items).items == v.items + items,
        after_appends(v, items).name == v.name,
        after_appends(v, items).capacity == v.capacity,
    decreases items.len(),
{
    if items.len() > 0 {
        let init = items.drop_last();
        assert(v.items + items =~= (v.items + init).push(items.last()));
        lemma_items_len_push(v.items + init, items.last());
        lemma_appends_keep_order(v, init);
    } else {
        assert(v.items + items =~= v.items);
    }
}

} // verus!
