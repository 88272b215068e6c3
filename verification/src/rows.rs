//! Rows of results, and what becomes of them as a whole.

use vstd::prelude::*;

verus! {

/// A result, its value and its error each by its view.
pub open spec fn seen<T: View, E: View>(r: Result<T, E>) -> Result<T::V, E::V> {
    match r {
        Ok(value) => Ok(value@),
        Err(error) => Err(error@),
    }
}

/// The values of a row of results where every one succeeded; else the first error.
pub open spec fn all_ok<T, E>(results: Seq<Result<T, E>>) -> Result<Seq<T>, E>
    decreases results.len(),
{
    if results.len() == 0 {
        Ok(Seq::empty())
    } else {
        match all_ok(results.drop_last()) {
            Err(error) => Err(error),
            Ok(values) => match results.last() {
                Err(error) => Err(error),
                Ok(value) => Ok(values.push(value)),
            },
        }
    }
}

/// An error among the first results is the error of the whole row.
pub proof fn lemma_first_error<T, E>(results: Seq<Result<T, E>>, n: int)
    requires
        0 <= n <= results.len(),
        all_ok(results.take(n)) is Err,
    ensures
        all_ok(results) == all_ok(results.take(n)),
    decreases results.len(),
{
    if n == results.len() {
        assert(results.take(n) =~= results);
    } else {
        assert(results.drop_last().take(n) =~= results.take(n));
        lemma_first_error(results.drop_last(), n);
    }
}

/// An error in the front of a row is the error of the whole row.
pub proof fn lemma_front_error<T, E>(front: Seq<Result<T, E>>, results: Seq<Result<T, E>>)
    requires
        front.is_prefix_of(results),
        all_ok(front) is Err,
    ensures
        all_ok(results) == all_ok(front),
{
    assert(results.take(front.len() as int) =~= front);
    lemma_first_error(results, front.len() as int);
}

/// What one result behind a row does to it.
pub proof fn lemma_push<T, E>(results: Seq<Result<T, E>>, next: Result<T, E>)
    ensures
        all_ok(results.push(next)) == match all_ok(results) {
            Err(error) => Err(error),
            Ok(values) => match next {
                Err(error) => Err(error),
                Ok(value) => Ok(values.push(value)),
            },
        },
{
    assert(results.push(next).drop_last() =~= results);
}

/// What one more result does to the row before it.
pub proof fn lemma_next<T, E>(results: Seq<Result<T, E>>, n: int)
    requires
        0 <= n < results.len(),
    ensures
        all_ok(results.take(n + 1)) == match all_ok(results.take(n)) {
            Err(error) => Err(error),
            Ok(values) => match results[n] {
                Err(error) => Err(error),
                Ok(value) => Ok(values.push(value)),
            },
        },
{
    assert(results.take(n + 1).drop_last() =~= results.take(n));
}

/// A row of results succeeds where every one of them does, with the value of each in its
/// place; else it fails with the first error.
pub proof fn law_all_or_first_error<T, E>(results: Seq<Result<T, E>>)
    ensures
        match all_ok(results) {
            Ok(values) => values.len() == results.len() && forall|i: int|
                0 <= i < results.len() ==> #[trigger] results[i] == Ok::<T, E>(values[i]),
            Err(error) => exists|i: int|
                0 <= i < results.len() && #[trigger] results[i] == Err::<T, E>(error)
                    && forall|j: int| 0 <= j < i ==> (#[trigger] results[j]) is Ok,
        },
    decreases results.len(),
{
    if results.len() > 0 {
        let front = results.drop_last();
        law_all_or_first_error(front);
        match all_ok(front) {
            Err(error) => {
                let i = choose|i: int|
                    0 <= i < front.len() && #[trigger] front[i] == Err::<T, E>(error)
                        && forall|j: int| 0 <= j < i ==> (#[trigger] front[j]) is Ok;
                assert(results[i] == Err::<T, E>(error));
                assert forall|j: int| 0 <= j < i implies (#[trigger] results[j]) is Ok by {
                    assert(front[j] is Ok);
                }
            },
            Ok(values) => {
                assert forall|j: int| 0 <= j < front.len() implies #[trigger] results[j] == Ok::<
                    T,
                    E,
                >(values[j]) by {
                    assert(front[j] == Ok::<T, E>(values[j]));
                }
                assert(results[results.len() - 1] == results.last());
            },
        }
    }
}

/// What is picked out of a row with one more item.
pub proof fn lemma_picked_push<A, B>(row: Seq<A>, next: A, pick: spec_fn(A) -> Option<B>)
    ensures
        row.push(next).filter_map(pick) == match pick(next) {
            Some(found) => row.filter_map(pick).push(found),
            None => row.filter_map(pick),
        },
{
    assert(row.push(next).drop_last() =~= row);
    assert(pick(next) is Some ==> row.filter_map(pick) + seq![pick(next)->0] =~= row.filter_map(
        pick,
    ).push(pick(next)->0));
}

/// What is picked out of two rows, one behind the other.
pub proof fn lemma_picked_add<A, B>(a: Seq<A>, b: Seq<A>, pick: spec_fn(A) -> Option<B>)
    ensures
        (a + b).filter_map(pick) == a.filter_map(pick) + b.filter_map(pick),
    decreases b.len(),
{
    if b.len() == 0 {
        assert(a + b =~= a);
        assert(a.filter_map(pick) + b.filter_map(pick) =~= a.filter_map(pick));
    } else {
        let front = b.drop_last();
        lemma_picked_add(a, front, pick);
        assert((a + b).drop_last() =~= a + front);
        lemma_picked_push(a + front, b.last(), pick);
        lemma_picked_push(front, b.last(), pick);
        assert((a + front).push(b.last()) =~= a + b);
        assert(front.push(b.last()) =~= b);
        assert((a + b).filter_map(pick) =~= a.filter_map(pick) + b.filter_map(pick));
    }
}

} // verus!
