//! Putting records in the order of their names.

use vstd::prelude::*;
use crate::models::entity::{AttributeMetadata, EntityMetadata};
use crate::models::user::RoleAssignment;
use crate::text::{chars_of, lex_lt, lex_lt_irreflexive, lex_lt_transitive, rank, Rank};

verus! {

/// Something that has a name to be sorted by.
pub trait Named {
    /// The name by which the value is sorted.
    spec fn sort_name(&self) -> Seq<char>;

    /// The name by which the value is sorted.
    fn name(&self) -> (r: &String)
        ensures
            r@ == self.sort_name(),
    ;
}

impl Named for EntityMetadata {
    open spec fn sort_name(&self) -> Seq<char> {
        self.logical_name@
    }

    fn name(&self) -> (r: &String) {
        &self.logical_name
    }
}

impl Named for AttributeMetadata {
    open spec fn sort_name(&self) -> Seq<char> {
        self.logical_name@
    }

    fn name(&self) -> (r: &String) {
        &self.logical_name
    }
}

impl Named for RoleAssignment {
    open spec fn sort_name(&self) -> Seq<char> {
        self.role.name@
    }

    fn name(&self) -> (r: &String) {
        &self.role.name
    }
}

/// `sorted` with `item` behind the last of its items whose name does not
/// come after that of `item`.
pub open spec fn insert_by_name<T: Named>(sorted: Seq<T>, item: T) -> Seq<T>
    decreases sorted.len(),
{
    if sorted.len() == 0 {
        seq![item]
    } else if lex_lt(item.sort_name(), sorted.last().sort_name()) {
        insert_by_name(sorted.drop_last(), item).push(sorted.last())
    } else {
        sorted.push(item)
    }
}

/// `items` in the dictionary order of their names. Items of one name keep
/// the order that they came in.
pub open spec fn sorted_by_name<T: Named>(items: Seq<T>) -> Seq<T>
    decreases items.len(),
{
    if items.len() == 0 {
        Seq::empty()
    } else {
        insert_by_name(sorted_by_name(items.drop_last()), items.last())
    }
}

/// Whether no item of `items` has a name that comes before that of an
/// earlier item.
pub open spec fn ordered_by_name<T: Named>(items: Seq<T>) -> bool {
    forall|i: int, j: int|
        0 <= i < j < items.len() ==> !lex_lt(
            (#[trigger] items[j]).sort_name(),
            (#[trigger] items[i]).sort_name(),
        )
}

/// Inserting adds the item and nothing else, and takes nothing away.
pub proof fn insert_by_name_adds<T: Named>(sorted: Seq<T>, item: T)
    ensures
        insert_by_name(sorted, item).to_multiset() == sorted.to_multiset().insert(item),
        insert_by_name(sorted, item).len() == sorted.len() + 1,
    decreases sorted.len(),
{
    broadcast use vstd::seq_lib::group_to_multiset_ensures;

    if sorted.len() == 0 {
        assert(seq![item] =~= sorted.push(item));
    } else if lex_lt(item.sort_name(), sorted.last().sort_name()) {
        let init = sorted.drop_last();
        insert_by_name_adds(init, item);
        assert(sorted =~= init.push(sorted.last()));
        assert(init.push(sorted.last()).to_multiset() =~= init.to_multiset().insert(sorted.last()));
        assert(insert_by_name(init, item).push(sorted.last()).to_multiset() =~= insert_by_name(
            init,
            item,
        ).to_multiset().insert(sorted.last()));
        assert(init.to_multiset().insert(item).insert(sorted.last()) =~= init.to_multiset().insert(
            sorted.last(),
        ).insert(item));
    } else {
    }
}

/// Sorting keeps every item, as often as it was there.
pub proof fn sorted_is_permutation<T: Named>(items: Seq<T>)
    ensures
        sorted_by_name(items).to_multiset() == items.to_multiset(),
        sorted_by_name(items).len() == items.len(),
    decreases items.len(),
{
    broadcast use vstd::seq_lib::group_to_multiset_ensures;

    if items.len() > 0 {
        sorted_is_permutation(items.drop_last());
        insert_by_name_adds(sorted_by_name(items.drop_last()), items.last());
        assert(items =~= items.drop_last().push(items.last()));
        assert(items.drop_last().push(items.last()).to_multiset()
            =~= items.drop_last().to_multiset().insert(items.last()));
    } else {
        assert(sorted_by_name(items) =~= items);
    }
}

/// Every item of what inserting gives is the item inserted or was there
/// before.
proof fn insert_by_name_members<T: Named>(sorted: Seq<T>, item: T, at: int)
    requires
        0 <= at < insert_by_name(sorted, item).len(),
    ensures
        insert_by_name(sorted, item)[at] == item || sorted.contains(insert_by_name(sorted, item)[at]),
    decreases sorted.len(),
{
    if sorted.len() == 0 {
    } else if lex_lt(item.sort_name(), sorted.last().sort_name()) {
        let init = sorted.drop_last();
        let head = insert_by_name(init, item);
        if at < head.len() {
            insert_by_name_members(init, item, at);
            if init.contains(head[at]) {
                let k = choose|k: int| 0 <= k < init.len() && init[k] == head[at];
                assert(sorted[k] == head[at]);
            }
        } else {
            assert(sorted[sorted.len() - 1] == sorted.last());
        }
    } else {
        if at < sorted.len() {
            assert(sorted[at] == insert_by_name(sorted, item)[at]);
        }
    }
}

/// Inserting into what is in order leaves it in order.
pub proof fn insert_by_name_keeps_order<T: Named>(sorted: Seq<T>, item: T)
    requires
        ordered_by_name(sorted),
    ensures
        ordered_by_name(insert_by_name(sorted, item)),
    decreases sorted.len(),
{
    let out = insert_by_name(sorted, item);
    if sorted.len() == 0 {
    } else if lex_lt(item.sort_name(), sorted.last().sort_name()) {
        let init = sorted.drop_last();
        let head = insert_by_name(init, item);
        assert(ordered_by_name(init)) by {
            assert forall|i: int, j: int| 0 <= i < j < init.len() implies !lex_lt(
                (#[trigger] init[j]).sort_name(),
                (#[trigger] init[i]).sort_name(),
            ) by {
                assert(init[i] == sorted[i] && init[j] == sorted[j]);
            }
        }
        insert_by_name_keeps_order(init, item);
        assert forall|i: int, j: int| 0 <= i < j < out.len() implies !lex_lt(
            (#[trigger] out[j]).sort_name(),
            (#[trigger] out[i]).sort_name(),
        ) by {
            if j < head.len() {
                assert(out[i] == head[i] && out[j] == head[j]);
            } else {
                assert(out[j] == sorted.last());
                assert(out[i] == head[i]);
                insert_by_name_members(init, item, i);
                if head[i] == item {
                    if lex_lt(sorted.last().sort_name(), item.sort_name()) {
                        lex_lt_transitive(
                            item.sort_name(),
                            sorted.last().sort_name(),
                            item.sort_name(),
                        );
                        lex_lt_irreflexive(item.sort_name());
                    }
                } else {
                    let k = choose|k: int| 0 <= k < init.len() && init[k] == head[i];
                    assert(sorted[k] == head[i]);
                    assert(sorted[sorted.len() - 1] == sorted.last());
                }
            }
        }
    } else {
        assert forall|i: int, j: int| 0 <= i < j < out.len() implies !lex_lt(
            (#[trigger] out[j]).sort_name(),
            (#[trigger] out[i]).sort_name(),
        ) by {
            if j < sorted.len() {
                assert(out[i] == sorted[i] && out[j] == sorted[j]);
            } else {
                assert(out[j] == item);
                assert(out[i] == sorted[i]);
                if i < sorted.len() - 1 {
                    assert(!lex_lt(sorted[sorted.len() - 1].sort_name(), sorted[i].sort_name()));
                    if lex_lt(item.sort_name(), sorted[i].sort_name()) {
                        // item < sorted[i] <= last, so item < last
                        names_chain(item.sort_name(), sorted[i].sort_name(), sorted.last().sort_name());
                    }
                }
            }
        }
    }
}

/// What comes before a name comes before every name that does not come
/// before that one.
proof fn names_chain(a: Seq<char>, b: Seq<char>, c: Seq<char>)
    requires
        lex_lt(a, b),
        !lex_lt(c, b),
    ensures
        lex_lt(a, c),
{
    crate::text::lex_lt_total(b, c);
    if b == c {
    } else {
        lex_lt_transitive(a, b, c);
    }
}

/// What sorting gives is in order.
pub proof fn sorted_is_ordered<T: Named>(items: Seq<T>)
    ensures
        ordered_by_name(sorted_by_name(items)),
    decreases items.len(),
{
    if items.len() > 0 {
        sorted_is_ordered(items.drop_last());
        insert_by_name_keeps_order(sorted_by_name(items.drop_last()), items.last());
    }
}

/// Where every item of `sorted` from `at` on has a name that comes after
/// that of `item`, and the item before `at`, if there is one, has none,
/// inserting puts `item` at `at`.
proof fn insert_by_name_at<T: Named>(sorted: Seq<T>, item: T, at: int)
    requires
        0 <= at <= sorted.len(),
        forall|j: int| at <= j < sorted.len() ==> lex_lt(item.sort_name(), (#[trigger] sorted[j]).sort_name()),
        at > 0 ==> !lex_lt(item.sort_name(), sorted[at - 1].sort_name()),
    ensures
        insert_by_name(sorted, item) == sorted.insert(at, item),
    decreases sorted.len() - at,
{
    if at == sorted.len() {
        if sorted.len() > 0 {
            assert(sorted.last() == sorted[at - 1]);
        }
        assert(sorted.push(item) =~= sorted.insert(at, item));
        assert(seq![item] =~= Seq::<T>::empty().push(item));
    } else {
        assert(lex_lt(item.sort_name(), sorted[sorted.len() - 1].sort_name()));
        let init = sorted.drop_last();
        assert(at > 0 ==> init[at - 1] == sorted[at - 1]);
        assert forall|j: int| at <= j < init.len() implies lex_lt(
            item.sort_name(),
            (#[trigger] init[j]).sort_name(),
        ) by {
            assert(init[j] == sorted[j]);
        }
        insert_by_name_at(init, item, at);
        assert(init.insert(at, item).push(sorted.last()) =~= sorted.insert(at, item));
    }
}

/// `items` in the dictionary order of their names. Items of one name keep
/// the order that they came in.
pub fn sort_by_name<T: Named>(items: Vec<T>) -> (sorted: Vec<T>)
    ensures
        sorted@ == sorted_by_name(items@),
{
    let mut rest = items;
    let mut sorted: Vec<T> = Vec::new();
    let ghost mut done: int = 0;
    proof {
        assert(items@.take(0) =~= Seq::empty());
        assert(items@.skip(0) =~= items@);
    }
    while rest.len() > 0
        invariant
            0 <= done <= items@.len(),
            rest@ == items@.skip(done),
            sorted@ == sorted_by_name(items@.take(done)),
        decreases rest.len(),
    {
        let item = rest.remove(0);
        proof {
            assert(item == items@[done]);
            assert(rest@ =~= items@.skip(done + 1));
            assert(items@.take(done + 1).drop_last() == items@.take(done));
            assert(items@.take(done + 1).last() == item);
            sorted_is_permutation(items@.take(done));
        }
        let wanted = chars_of(item.name().as_str());
        let mut at: usize = sorted.len();
        while at > 0
            invariant
                at <= sorted.len(),
                wanted@ == item.sort_name(),
                forall|j: int|
                    at <= j < sorted.len() ==> lex_lt(
                        item.sort_name(),
                        (#[trigger] sorted@[j]).sort_name(),
                    ),
            ensures
                at <= sorted.len(),
                at > 0 ==> !lex_lt(item.sort_name(), sorted@[at - 1].sort_name()),
            decreases at,
        {
            let here = chars_of(sorted[at - 1].name().as_str());
            match rank(&wanted, &here) {
                Rank::Before => {
                    at -= 1;
                },
                Rank::Same => {
                    proof {
                        lex_lt_irreflexive(item.sort_name());
                    }
                    break ;
                },
                Rank::After => {
                    proof {
                        if lex_lt(item.sort_name(), here@) {
                            lex_lt_transitive(item.sort_name(), here@, item.sort_name());
                            lex_lt_irreflexive(item.sort_name());
                        }
                    }
                    break ;
                },
            }
        }
        proof {
            insert_by_name_at(sorted@, item, at as int);
        }
        sorted.insert(at, item);
        proof {
            done = done + 1;
        }
    }
    proof {
        assert(items@.take(done) == items@);
    }
    sorted
}

} // verus!
