//! Mapping a sequence through a function that may fail.

use vstd::prelude::*;

verus! {

/// Maps every item of a sequence, in order. Where an item has an error, the
/// error of the first such item is the result.
pub open spec fn try_map<A, B, E>(items: Seq<A>, f: spec_fn(A) -> Result<B, E>) -> Result<
    Seq<B>,
    E,
>
    decreases items.len(),
{
    if items.len() == 0 {
        Ok(Seq::empty())
    } else {
        match try_map(items.drop_last(), f) {
            Err(e) => Err(e),
            Ok(mapped) => match f(items.last()) {
                Ok(b) => Ok(mapped.push(b)),
                Err(e) => Err(e),
            },
        }
    }
}

/// `try_map` succeeds exactly where every item maps, and then holds the
/// images in order; it fails with the error of the first item that has one.
pub proof fn lemma_try_map<A, B, E>(items: Seq<A>, f: spec_fn(A) -> Result<B, E>)
    ensures
        match try_map(items, f) {
            Ok(mapped) => {
                &&& mapped.len() == items.len()
                &&& forall|i: int| 0 <= i < items.len() ==> f(#[trigger] items[i]) == Ok::<B, E>(
                    mapped[i],
                )
            },
            Err(e) => exists|i: int|
                {
                    &&& 0 <= i < items.len()
                    &&& f(#[trigger] items[i]) == Err::<B, E>(e)
                    &&& forall|j: int| 0 <= j < i ==> f(#[trigger] items[j]) is Ok
                },
        },
    decreases items.len(),
{
    if items.len() > 0 {
        let front = items.drop_last();
        lemma_try_map(front, f);
        match try_map(front, f) {
            Err(e) => {
                let i = choose|i: int|
                    {
                        &&& 0 <= i < front.len()
                        &&& f(#[trigger] front[i]) == Err::<B, E>(e)
                        &&& forall|j: int| 0 <= j < i ==> f(#[trigger] front[j]) is Ok
                    };
                assert(items[i] == front[i]);
                assert forall|j: int| 0 <= j < i implies f(#[trigger] items[j]) is Ok by {
                    assert(items[j] == front[j]);
                }
            },
            Ok(mapped) => {
                assert forall|j: int| 0 <= j < front.len() implies f(#[trigger] items[j]) is Ok by {
                    assert(items[j] == front[j]);
                }
                match f(items.last()) {
                    Ok(b) => {
                        let all = mapped.push(b);
                        assert forall|i: int| 0 <= i < items.len() implies f(
                            #[trigger] items[i],
                        ) == Ok::<B, E>(all[i]) by {
                            if i < front.len() {
                                assert(items[i] == front[i]);
                            }
                        }
                    },
                    Err(e) => {
                        let i = items.len() - 1;
                        assert(f(items[i]) == Err::<B, E>(e));
                    },
                }
            },
        }
    }
}

/// One more item at the end: the step by which a loop follows `try_map`.
pub proof fn lemma_try_map_step<A, B, E>(items: Seq<A>, f: spec_fn(A) -> Result<B, E>, n: int)
    requires
        0 <= n < items.len(),
    ensures
        try_map(items.take(n + 1), f) == match try_map(items.take(n), f) {
            Err(e) => Err::<Seq<B>, E>(e),
            Ok(mapped) => match f(items[n]) {
                Ok(b) => Ok(mapped.push(b)),
                Err(e) => Err(e),
            },
        },
{
    assert(items.take(n + 1).drop_last() == items.take(n));
    assert(items.take(n + 1).last() == items[n]);
}

/// An error among the first `n` items is the error of the whole sequence.
pub proof fn lemma_try_map_prefix<A, B, E>(items: Seq<A>, f: spec_fn(A) -> Result<B, E>, n: int)
    requires
        0 <= n <= items.len(),
        try_map(items.take(n), f) is Err,
    ensures
        try_map(items, f) == try_map(items.take(n), f),
    decreases items.len() - n,
{
    if n < items.len() {
        lemma_try_map_step(items, f, n);
        lemma_try_map_prefix(items, f, n + 1);
    } else {
        assert(items.take(n) == items);
    }
}

} // verus!
