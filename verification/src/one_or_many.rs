//! A list that holds at least one item.
use vstd::prelude::*;

verus! {

/// The refusal of an empty list.
#[derive(Clone, Copy, Debug, PartialEq, Eq, Structural)]
pub struct EmptyListError;

/// A list that holds at least one item: the first one, and those after it.
#[derive(Debug, PartialEq)]
pub struct OneOrMany<T> {
    pub first: T,
    pub rest: Vec<T>,
}

impl<T> View for OneOrMany<T> {
    type V = Seq<T>;

    open spec fn view(&self) -> Seq<T> {
        seq![self.first] + self.rest@
    }
}

impl<T: DeepView> DeepView for OneOrMany<T> {
    type V = Seq<T::V>;

    open spec fn deep_view(&self) -> Seq<T::V> {
        Seq::new(self@.len(), |i: int| self@[i].deep_view())
    }
}

impl<T> OneOrMany<T> {
    /// A list of one item.
    pub fn one(item: T) -> (list: Self)
        ensures
            list@ == seq![item],
    {
        OneOrMany { first: item, rest: Vec::new() }
    }

    /// The list of `items`, which must not be empty.
    pub fn many(items: Vec<T>) -> (list: Result<Self, EmptyListError>)
        ensures
            items@.len() > 0 ==> list is Ok && list->Ok_0@ == items@,
            items@.len() == 0 ==> list == Err::<Self, EmptyListError>(EmptyListError),
    {
        if items.len() == 0 {
            return Err(EmptyListError);
        }
        let ghost all = items@;
        let mut rest = items;
        let first = rest.remove(0);
        assert(seq![first] + rest@ == all);
        Ok(OneOrMany { first, rest })
    }

    /// The first item.
    pub fn first(&self) -> (item: &T)
        ensures
            *item == self@[0],
    {
        &self.first
    }

    /// The items in their order.
    pub fn into_vec(self) -> (items: Vec<T>)
        ensures
            items@ == self@,
    {
        let ghost all = self@;
        let mut items = self.rest;
        items.insert(0, self.first);
        assert(items@ == all);
        items
    }

    /// The list of what `f` makes of each item.
    pub fn map<U, F: Fn(T) -> U>(self, f: F) -> (list: OneOrMany<U>)
        requires
            forall|i: int| 0 <= i < self@.len() ==> call_requires(f, (#[trigger] self@[i],)),
        ensures
            list@.len() == self@.len(),
            forall|i: int|
                0 <= i < self@.len() ==> call_ensures(f, (self@[i],), #[trigger] list@[i]),
    {
        let ghost all = self@;
        assert(all[0] == self.first);
        assert forall|i: int| 0 <= i < self.rest@.len() implies self.rest@[i] == #[trigger] all[
            i + 1] by {}
        let ghost tail = self.rest@;
        let first = f(self.first);
        let mut rest: Vec<U> = Vec::new();
        for item in it: self.rest
            invariant
                it.seq() == tail,
                all.len() == tail.len() + 1,
                rest@.len() == it.index(),
                forall|i: int| 0 <= i < tail.len() ==> tail[i] == #[trigger] all[i + 1],
                forall|i: int| 0 <= i < all.len() ==> call_requires(f, (#[trigger] all[i],)),
                forall|i: int|
                    0 <= i < rest@.len() ==> call_ensures(f, (tail[i],), #[trigger] rest@[i]),
        {
            assert(item == all[it.index() + 1]);
            rest.push(f(item));
        }
        let list = OneOrMany { first, rest };
        assert forall|i: int| 0 <= i < all.len() implies call_ensures(
            f,
            (all[i],),
            #[trigger] list@[i],
        ) by {
            if i > 0 {
                assert(tail[i - 1] == all[i - 1 + 1]);
                assert(list@[i] == rest@[i - 1]);
            }
        }
        list
    }
}

impl<T: Clone> Clone for OneOrMany<T> {
    fn clone(&self) -> (list: Self)
        ensures
            list@.len() == self@.len(),
            forall|i: int| 0 <= i < self@.len() ==> cloned::<T>(self@[i], #[trigger] list@[i]),
    {
        let list = OneOrMany { first: self.first.clone(), rest: self.rest.clone() };
        assert forall|i: int| 0 <= i < self@.len() implies cloned::<T>(
            self@[i],
            #[trigger] list@[i],
        ) by {
            if i > 0 {
                assert(cloned::<T>(self.rest@[i - 1], list.rest@[i - 1]));
            }
        }
        list
    }
}

} // verus!
