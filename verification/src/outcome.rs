//! Models of results, and of a conversion that stops at the first item it cannot convert.
use vstd::prelude::*;

verus! {

/// The model of a result: that of the value or that of the error.
pub open spec fn outcome<T: DeepView, E: DeepView>(result: Result<T, E>) -> Result<T::V, E::V> {
    match result {
        Ok(value) => Ok(value.deep_view()),
        Err(error) => Err(error.deep_view()),
    }
}

/// What `f` makes of each of `items`, or the error of the first item for which it fails.
pub open spec fn try_each<A, B, E>(
    items: Seq<A>,
    f: spec_fn(A) -> Result<B, E>,
) -> Result<Seq<B>, E>
    decreases items.len(),
{
    if items.len() == 0 {
        Ok(Seq::empty())
    } else {
        match try_each(items.drop_last(), f) {
            Ok(done) => match f(items.last()) {
                Ok(value) => Ok(done.push(value)),
                Err(error) => Err(error),
            },
            Err(error) => Err(error),
        }
    }
}

/// Where `f` fails for no item, `try_each` gives what it makes of them, one by one.
pub proof fn lemma_try_each_ok<A, B, E>(
    items: Seq<A>,
    f: spec_fn(A) -> Result<B, E>,
    values: Seq<B>,
)
    requires
        values.len() == items.len(),
        forall|i: int| 0 <= i < items.len() ==> f(items[i]) == Ok::<B, E>(#[trigger] values[i]),
    ensures
        try_each(items, f) == Ok::<Seq<B>, E>(values),
    decreases items.len(),
{
    if items.len() > 0 {
        let most = values.drop_last();
        assert forall|i: int| 0 <= i < items.drop_last().len() implies f(items.drop_last()[i])
            == Ok::<B, E>(#[trigger] most[i]) by {
            assert(most[i] == values[i]);
        }
        lemma_try_each_ok(items.drop_last(), f, most);
        assert(f(items.last()) == Ok::<B, E>(values[items.len() - 1]));
        assert(most.push(values.last()) == values);
    } else {
        assert(values == Seq::<B>::empty());
    }
}

/// The first item for which `f` fails gives the error of `try_each`.
pub proof fn lemma_try_each_err<A, B, E>(
    items: Seq<A>,
    f: spec_fn(A) -> Result<B, E>,
    at: int,
    error: E,
)
    requires
        0 <= at < items.len(),
        f(items[at]) == Err::<B, E>(error),
        forall|i: int| 0 <= i < at ==> f(#[trigger] items[i]) is Ok,
    ensures
        try_each(items, f) == Err::<Seq<B>, E>(error),
    decreases items.len(),
{
    let most = items.drop_last();
    if at == items.len() - 1 {
        let values = Seq::new(most.len(), |i: int| f(most[i])->Ok_0);
        assert forall|i: int| 0 <= i < most.len() implies f(most[i]) == Ok::<B, E>(
            #[trigger] values[i],
        ) by {
            assert(most[i] == items[i]);
        }
        lemma_try_each_ok(most, f, values);
    } else {
        assert forall|i: int| 0 <= i < at implies f(#[trigger] most[i]) is Ok by {
            assert(most[i] == items[i]);
        }
        lemma_try_each_err(most, f, at, error);
    }
}

/// Where `try_each` gives values, `f` gave each of them.
pub proof fn lemma_try_each_values<A, B, E>(items: Seq<A>, f: spec_fn(A) -> Result<B, E>)
    requires
        try_each(items, f) is Ok,
    ensures
        try_each(items, f)->Ok_0.len() == items.len(),
        forall|i: int|
            0 <= i < items.len() ==> f(items[i]) == Ok::<B, E>(
                #[trigger] try_each(items, f)->Ok_0[i],
            ),
    decreases items.len(),
{
    if items.len() > 0 {
        let most = items.drop_last();
        lemma_try_each_values(most, f);
        let values = try_each(items, f)->Ok_0;
        assert forall|i: int| 0 <= i < items.len() implies f(items[i]) == Ok::<B, E>(
            #[trigger] values[i],
        ) by {
            if i < most.len() {
                assert(values[i] == try_each(most, f)->Ok_0[i]);
                assert(most[i] == items[i]);
            }
        }
    }
}

/// Where `try_each` gives an error, `f` gave it for some item.
pub proof fn lemma_try_each_fails_somewhere<A, B, E>(
    items: Seq<A>,
    f: spec_fn(A) -> Result<B, E>,
) -> (at: int)
    requires
        try_each(items, f) is Err,
    ensures
        0 <= at < items.len(),
        f(items[at]) == Err::<B, E>(try_each(items, f)->Err_0),
    decreases items.len(),
{
    let most = items.drop_last();
    if try_each(most, f) is Err {
        lemma_try_each_fails_somewhere(most, f)
    } else {
        items.len() - 1
    }
}

} // verus!
