//! Folds with a first error, and the views of results.
use vstd::prelude::*;
use crate::keyword::{parse_keyword, LefKeyword};
use crate::read::error::{LefReadError, LefReadErrorView};

verus! {

/// What a result holds: the view of the value, or the view of the error.
pub open spec fn result_view<T: DeepView>(result: Result<T, LefReadError>) -> Result<
    T::V,
    LefReadErrorView,
> {
    match result {
        Ok(value) => Ok(value.deep_view()),
        Err(error) => Err(error.deep_view()),
    }
}

/// What a result with a list of plain values holds: the values, or the
/// view of the error.
pub open spec fn list_result_view<T>(result: Result<Vec<T>, LefReadError>) -> Result<
    Seq<T>,
    LefReadErrorView,
> {
    match result {
        Ok(values) => Ok(values@),
        Err(error) => Err(error.deep_view()),
    }
}

/// The value that a keyword stands for, or the error that names the
/// keyword where it stands for none.
pub open spec fn keyword_value<K: LefKeyword>(text: Seq<char>) -> Result<K, LefReadErrorView> {
    match parse_keyword::<K>(text) {
        Some(value) => Ok(value),
        None => Err(LefReadErrorView::UnknownEnumerationValue(text)),
    }
}

/// The images of all items under `f`, in their order, or the error of the
/// first item on which `f` fails.
pub open spec fn try_map<A, B, E>(items: Seq<A>, f: spec_fn(A) -> Result<B, E>) -> Result<
    Seq<B>,
    E,
>
    decreases items.len(),
{
    if items.len() == 0 {
        Ok(Seq::empty())
    } else {
        match try_map(items.drop_last(), f) {
            Err(error) => Err(error),
            Ok(head) => match f(items.last()) {
                Err(error) => Err(error),
                Ok(value) => Ok(head.push(value)),
            },
        }
    }
}

/// The state reached from `init` by taking the items one after the other,
/// or the error of the first step that fails.
pub open spec fn try_fold<S, A, E>(init: S, items: Seq<A>, step: spec_fn(S, A) -> Result<S, E>)
    -> Result<S, E>
    decreases items.len(),
{
    if items.len() == 0 {
        Ok(init)
    } else {
        match try_fold(init, items.drop_last(), step) {
            Err(error) => Err(error),
            Ok(state) => step(state, items.last()),
        }
    }
}

/// The state reached from `init` by taking the items one after the other.
pub open spec fn fold<S, A>(init: S, items: Seq<A>, step: spec_fn(S, A) -> S) -> S
    decreases items.len(),
{
    if items.len() == 0 {
        init
    } else {
        step(fold(init, items.drop_last(), step), items.last())
    }
}

/// One more item: `try_map` over the first `n + 1` items goes on from
/// `try_map` over the first `n`.
pub proof fn lemma_try_map_next<A, B, E>(items: Seq<A>, f: spec_fn(A) -> Result<B, E>, n: int)
    requires
        0 <= n < items.len(),
    ensures
        try_map(items.take(n + 1), f) == match try_map(items.take(n), f) {
            Err(error) => Err(error),
            Ok(head) => match f(items[n]) {
                Err(error) => Err(error),
                Ok(value) => Ok(head.push(value)),
            },
        },
{
    assert(items.take(n + 1).drop_last() =~= items.take(n));
}

/// An error stays: once `try_map` fails on the first `n` items, it fails
/// in the same way on all of them.
pub proof fn lemma_try_map_rest<A, B, E>(items: Seq<A>, f: spec_fn(A) -> Result<B, E>, n: int)
    requires
        0 <= n <= items.len(),
        try_map(items.take(n), f) is Err,
    ensures
        try_map(items, f) == try_map(items.take(n), f),
    decreases items.len() - n,
{
    if n < items.len() {
        lemma_try_map_next(items, f, n);
        lemma_try_map_rest(items, f, n + 1);
    } else {
        assert(items.take(n) =~= items);
    }
}

/// An error stays: once `try_fold` fails on the first `n` items, it fails
/// in the same way on all of them.
pub proof fn lemma_try_fold_rest<S, A, E>(
    init: S,
    items: Seq<A>,
    step: spec_fn(S, A) -> Result<S, E>,
    n: int,
)
    requires
        0 <= n <= items.len(),
        try_fold(init, items.take(n), step) is Err,
    ensures
        try_fold(init, items, step) == try_fold(init, items.take(n), step),
    decreases items.len() - n,
{
    if n < items.len() {
        lemma_try_fold_next(init, items, step, n);
        lemma_try_fold_rest(init, items, step, n + 1);
    } else {
        assert(items.take(n) =~= items);
    }
}

/// One more item: `try_fold` over the first `n + 1` items goes on from
/// `try_fold` over the first `n`.
pub proof fn lemma_try_fold_next<S, A, E>(
    init: S,
    items: Seq<A>,
    step: spec_fn(S, A) -> Result<S, E>,
    n: int,
)
    requires
        0 <= n < items.len(),
    ensures
        try_fold(init, items.take(n + 1), step) == match try_fold(init, items.take(n), step) {
            Err(error) => Err(error),
            Ok(state) => step(state, items[n]),
        },
{
    assert(items.take(n + 1).drop_last() =~= items.take(n));
}

/// One more item: `fold` over the first `n + 1` items goes on from `fold`
/// over the first `n`.
pub proof fn lemma_fold_next<S, A>(init: S, items: Seq<A>, step: spec_fn(S, A) -> S, n: int)
    requires
        0 <= n < items.len(),
    ensures
        fold(init, items.take(n + 1), step) == step(fold(init, items.take(n), step), items[n]),
{
    assert(items.take(n + 1).drop_last() =~= items.take(n));
}

} // verus!
