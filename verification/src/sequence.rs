//! Working through a sequence until the first failure.

use vstd::prelude::*;

verus! {

/// `a` begins with `b`.
pub open spec fn begins_with<T>(a: Seq<T>, b: Seq<T>) -> bool {
    b.len() <= a.len() && a.take(b.len() as int) == b
}

/// `a` ends with `b`.
pub open spec fn ends_with<T>(a: Seq<T>, b: Seq<T>) -> bool {
    b.len() <= a.len() && a.subrange(a.len() - b.len(), a.len() as int) == b
}

/// The values of the results if all are `Ok`; else the first error in order.
pub open spec fn all_ok<T, E>(results: Seq<Result<T, E>>) -> Result<Seq<T>, E>
    decreases results.len(),
{
    if results.len() == 0 {
        Ok(Seq::empty())
    } else {
        match all_ok(results.drop_last()) {
            Err(e) => Err(e),
            Ok(done) => match results.last() {
                Err(e) => Err(e),
                Ok(t) => Ok(done.push(t)),
            },
        }
    }
}

/// The state reached by taking the items one by one from `init`, or `None`
/// once a step refuses an item.
pub open spec fn try_fold<S, A>(items: Seq<A>, init: S, step: spec_fn(S, A) -> Option<S>) -> Option<S>
    decreases items.len(),
{
    if items.len() == 0 {
        Some(init)
    } else {
        match try_fold(items.drop_last(), init, step) {
            None => None,
            Some(state) => step(state, items.last()),
        }
    }
}

/// One more result extends the values, or brings the first error.
pub proof fn lemma_all_ok_step<T, E>(results: Seq<Result<T, E>>, i: int)
    requires
        0 <= i < results.len(),
    ensures
        all_ok(results.take(i + 1)) == match all_ok(results.take(i)) {
            Err(e) => Err(e),
            Ok(done) => match results[i] {
                Err(e) => Err(e),
                Ok(t) => Ok(done.push(t)),
            },
        },
{
    assert(results.take(i + 1).drop_last() =~= results.take(i));
}

/// An error among the first `n` results is the error of the whole.
pub proof fn lemma_all_ok_fails<T, E>(results: Seq<Result<T, E>>, n: int)
    requires
        0 <= n <= results.len(),
        all_ok(results.take(n)) is Err,
    ensures
        all_ok(results) == all_ok(results.take(n)),
    decreases results.len() - n,
{
    if n == results.len() {
        assert(results.take(n) =~= results);
    } else {
        lemma_all_ok_step(results, n);
        lemma_all_ok_fails(results, n + 1);
    }
}

/// When every result is `Ok`, the values are those of the results, in order;
/// else the error is the error of one of them.
pub proof fn lemma_all_ok_values<T, E>(results: Seq<Result<T, E>>)
    ensures
        match all_ok(results) {
            Ok(values) => values.len() == results.len() && forall|i: int|
                0 <= i < results.len() ==> results[i] == Ok::<T, E>(#[trigger] values[i]),
            Err(e) => exists|i: int| 0 <= i < results.len() && results[i] == Err::<T, E>(e),
        },
    decreases results.len(),
{
    if results.len() > 0 {
        lemma_all_ok_values(results.drop_last());
        match all_ok(results.drop_last()) {
            Ok(done) => {
                match results.last() {
                    Ok(t) => {
                        let values = done.push(t);
                        assert forall|i: int| 0 <= i < results.len() implies results[i] == Ok::<
                            T,
                            E,
                        >(#[trigger] values[i]) by {
                            if i < results.len() - 1 {
                                assert(results.drop_last()[i] == results[i]);
                            }
                        }
                    },
                    Err(e) => {
                        assert(results[results.len() - 1] == Err::<T, E>(e));
                    },
                }
            },
            Err(e) => {
                let i = choose|i: int|
                    0 <= i < results.drop_last().len() && results.drop_last()[i] == Err::<T, E>(e);
                assert(results[i] == Err::<T, E>(e));
            },
        }
    }
}

/// One more item is one more step.
pub proof fn lemma_try_fold_step<S, A>(
    items: Seq<A>,
    init: S,
    step: spec_fn(S, A) -> Option<S>,
    i: int,
)
    requires
        0 <= i < items.len(),
    ensures
        try_fold(items.take(i + 1), init, step) == match try_fold(items.take(i), init, step) {
            None => None,
            Some(state) => step(state, items[i]),
        },
{
    assert(items.take(i + 1).drop_last() =~= items.take(i));
}

/// A refusal among the first `n` items is the refusal of the whole.
pub proof fn lemma_try_fold_fails<S, A>(
    items: Seq<A>,
    init: S,
    step: spec_fn(S, A) -> Option<S>,
    n: int,
)
    requires
        0 <= n <= items.len(),
        try_fold(items.take(n), init, step) is None,
    ensures
        try_fold(items, init, step) is None,
    decreases items.len() - n,
{
    if n == items.len() {
        assert(items.take(n) =~= items);
    } else {
        lemma_try_fold_step(items, init, step, n);
        lemma_try_fold_fails(items, init, step, n + 1);
    }
}

} // verus!
