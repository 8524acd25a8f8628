//! Facts about lists of which only some items are kept.
use vstd::prelude::*;

verus! {

/// Filtering two lists one after the other is filtering them together.
pub proof fn lemma_filter_map_add<A, B>(a: Seq<A>, b: Seq<A>, f: spec_fn(A) -> Option<B>)
    ensures
        (a + b).filter_map(f) == a.filter_map(f) + b.filter_map(f),
    decreases b.len(),
{
    if b.len() == 0 {
        assert(a + b == a);
    } else {
        lemma_filter_map_add(a, b.drop_last(), f);
        assert((a + b).drop_last() == a + b.drop_last());
        assert((a + b).last() == b.last());
    }
}

/// Filtering keeps everything where every item is kept.
pub proof fn lemma_filter_map_keeps<A, B>(items: Seq<A>, f: spec_fn(A) -> Option<B>, kept: Seq<B>)
    requires
        kept.len() == items.len(),
        forall|i: int| 0 <= i < items.len() ==> f(#[trigger] items[i]) == Some(kept[i]),
    ensures
        items.filter_map(f) == kept,
    decreases items.len(),
{
    if items.len() > 0 {
        let most = items.drop_last();
        assert forall|i: int| 0 <= i < most.len() implies f(#[trigger] most[i]) == Some(
            kept.drop_last()[i],
        ) by {
            assert(most[i] == items[i]);
        }
        lemma_filter_map_keeps(most, f, kept.drop_last());
        assert(f(items[items.len() - 1]) == Some(kept[items.len() - 1]));
        assert(kept.drop_last() + seq![kept.last()] == kept);
    } else {
        assert(kept == Seq::<B>::empty());
    }
}

/// Filtering leaves nothing where no item is kept.
pub proof fn lemma_filter_map_drops<A, B>(items: Seq<A>, f: spec_fn(A) -> Option<B>)
    requires
        forall|i: int| 0 <= i < items.len() ==> f(#[trigger] items[i]) is None,
    ensures
        items.filter_map(f) == Seq::<B>::empty(),
    decreases items.len(),
{
    if items.len() > 0 {
        let most = items.drop_last();
        assert forall|i: int| 0 <= i < most.len() implies f(#[trigger] most[i]) is None by {
            assert(most[i] == items[i]);
        }
        lemma_filter_map_drops(most, f);
        assert(f(items[items.len() - 1]) is None);
    }
}

/// What filtering keeps of a list is what it keeps of the list without one item, and of that item.
pub proof fn lemma_filter_map_remove<A, B>(items: Seq<A>, f: spec_fn(A) -> Option<B>, at: int)
    requires
        0 <= at < items.len(),
    ensures
        items.filter_map(f).to_multiset() == (match f(items[at]) {
            Some(kept) => items.remove(at).filter_map(f).to_multiset().insert(kept),
            None => items.remove(at).filter_map(f).to_multiset(),
        }),
{
    let before = items.take(at);
    let after = items.skip(at + 1);
    let item = seq![items[at]];
    assert(items == before + item + after);
    assert(items.remove(at) == before + after);
    lemma_filter_map_add(before + item, after, f);
    lemma_filter_map_add(before, item, f);
    lemma_filter_map_add(before, after, f);
    let rest = before.filter_map(f) + after.filter_map(f);
    let position = before.filter_map(f).len() as int;
    match f(items[at]) {
        Some(kept) => {
            lemma_filter_map_keeps(item, f, seq![kept]);
            assert(items.filter_map(f) == rest.insert(position, kept));
            vstd::seq_lib::to_multiset_insert(rest, position, kept);
        },
        None => {
            lemma_filter_map_drops(item, f);
            assert(items.filter_map(f) == rest);
        },
    }
}

/// Two lists of the same items without repetition differ in nothing but their order, and so does
/// what filtering keeps of them.
pub proof fn lemma_filter_map_of_same_items<A, B>(a: Seq<A>, b: Seq<A>, f: spec_fn(A) -> Option<B>)
    requires
        a.no_duplicates(),
        b.no_duplicates(),
        a.to_set() == b.to_set(),
    ensures
        a.filter_map(f).to_multiset() == b.filter_map(f).to_multiset(),
    decreases a.len(),
{
    if a.len() == 0 {
        if b.len() > 0 {
            assert(b.to_set().contains(b[0]));
            assert(a.to_set().contains(b[0]));
        }
        assert(a == b);
    } else {
        let last = a.last();
        assert(a.to_set().contains(last));
        let at = choose|i: int| 0 <= i < b.len() && b[i] == last;
        let most = a.drop_last();
        let rest = b.remove(at);
        assert forall|x: A| most.to_set().contains(x) == rest.to_set().contains(x) by {
            if most.to_set().contains(x) {
                let i = choose|i: int| 0 <= i < most.len() && most[i] == x;
                assert(a[i] == x);
                assert(a.to_set().contains(x));
                let j = choose|j: int| 0 <= j < b.len() && b[j] == x;
                assert(j != at);
                if j < at {
                    assert(rest[j] == x);
                } else {
                    assert(rest[j - 1] == x);
                }
            }
            if rest.to_set().contains(x) {
                let j = choose|j: int| 0 <= j < rest.len() && rest[j] == x;
                if j < at {
                    assert(b[j] == x);
                } else {
                    assert(b[j + 1] == x);
                }
                assert(b.to_set().contains(x));
                let i = choose|i: int| 0 <= i < a.len() && a[i] == x;
                assert(x != last);
                assert(most[i] == x);
            }
        }
        assert(most.to_set() == rest.to_set());
        lemma_filter_map_of_same_items(most, rest, f);
        lemma_filter_map_remove(b, f, at);
        lemma_filter_map_remove(a, f, a.len() - 1);
        assert(a.remove(a.len() - 1) == most);
    }
}

/// To look something up for each item and then to filter is to filter by what is looked up.
pub proof fn lemma_filter_map_of_map<A, B, C>(
    items: Seq<A>,
    look_up: spec_fn(A) -> B,
    f: spec_fn(B) -> Option<C>,
)
    ensures
        items.map_values(look_up).filter_map(f) == items.filter_map(|item: A| f(look_up(item))),
    decreases items.len(),
{
    if items.len() > 0 {
        lemma_filter_map_of_map(items.drop_last(), look_up, f);
        assert(items.map_values(look_up).drop_last() == items.drop_last().map_values(look_up));
    }
}

/// What filtering makes of an item that it keeps is in what it leaves.
pub proof fn lemma_filter_map_contains<A, B>(items: Seq<A>, f: spec_fn(A) -> Option<B>, at: int)
    requires
        0 <= at < items.len(),
        f(items[at]) is Some,
    ensures
        items.filter_map(f).contains(f(items[at])->0),
    decreases items.len(),
{
    let most = items.drop_last();
    let kept = items.filter_map(f);
    if at == items.len() - 1 {
        assert(kept.last() == f(items[at])->0);
    } else {
        lemma_filter_map_contains(most, f, at);
        let i = most.filter_map(f).index_of(f(items[at])->0);
        assert(kept[i] == f(items[at])->0);
    }
}

/// What filtering leaves, it made of some item.
pub proof fn lemma_filter_map_source<A, B>(
    items: Seq<A>,
    f: spec_fn(A) -> Option<B>,
    value: B,
) -> (at: int)
    requires
        items.filter_map(f).contains(value),
    ensures
        0 <= at < items.len(),
        f(items[at]) == Some(value),
    decreases items.len(),
{
    let most = items.drop_last();
    if f(items.last()) == Some(value) {
        items.len() - 1
    } else {
        let i = items.filter_map(f).index_of(value);
        assert(most.filter_map(f)[i] == value);
        lemma_filter_map_source(most, f, value)
    }
}

/// How many of `items` satisfy `p`.
pub open spec fn how_many<A>(items: Seq<A>, p: spec_fn(A) -> bool) -> nat
    decreases items.len(),
{
    if items.len() == 0 {
        0
    } else if p(items.last()) {
        how_many(items.drop_last(), p) + 1
    } else {
        how_many(items.drop_last(), p)
    }
}

/// Filtering leaves as many items as it keeps, and what it makes of an item that it keeps stands
/// behind what it makes of those before.
pub proof fn lemma_filter_map_counts<A, B, C>(
    items: Seq<A>,
    p: spec_fn(A) -> bool,
    models: Seq<B>,
    f: spec_fn(B) -> Option<C>,
)
    requires
        items.len() == models.len(),
        forall|i: int| 0 <= i < items.len() ==> (p(#[trigger] items[i]) <==> f(models[i]) is Some),
    ensures
        models.filter_map(f).len() == how_many(items, p),
        forall|at: int|
            #![trigger items[at]]
            0 <= at < items.len() && p(items[at]) ==> how_many(items.take(at), p) < how_many(
                items,
                p,
            ) && f(models[at]) == Some(models.filter_map(f)[how_many(items.take(at), p) as int]),
    decreases items.len(),
{
    if items.len() > 0 {
        let most = items.drop_last();
        let most_models = models.drop_last();
        assert forall|i: int| 0 <= i < most.len() implies (p(#[trigger] most[i]) <==> f(
            most_models[i],
        ) is Some) by {
            assert(most[i] == items[i]);
        }
        lemma_filter_map_counts(most, p, most_models, f);
        let last = items.len() - 1;
        assert(p(items[last]) <==> f(models[last]) is Some);
        assert forall|at: int|
            #![trigger items[at]]
            0 <= at < items.len() && p(items[at]) implies how_many(items.take(at), p) < how_many(
            items,
            p,
        ) && f(models[at]) == Some(models.filter_map(f)[how_many(items.take(at), p) as int]) by {
            if at < last {
                assert(most[at] == items[at]);
                assert(most.take(at) == items.take(at));
                let k = how_many(items.take(at), p) as int;
                assert(models.filter_map(f)[k] == most_models.filter_map(f)[k]);
            } else {
                assert(items.take(at) == most);
            }
        }
    }
}

} // verus!
