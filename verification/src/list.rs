//! Lists of values with views, and lists of results.

use crate::error::ErrorView;
use vstd::prelude::*;

verus! {

/// Appends `item` to `list`; the view of the list grows by the view of the
/// item.
pub fn push_deep<T: DeepView>(list: &mut Vec<T>, item: T)
    ensures
        final(list)@ == old(list)@.push(item),
        final(list).deep_view() == old(list).deep_view().push(item.deep_view()),
{
    let ghost before = list.deep_view();
    list.push(item);
    assert(list.deep_view() =~= before.push(item.deep_view()));
}

/// Moves the items of `other` behind those of `list`; the view of the list
/// grows by the view of `other`.
pub fn append_deep<T: DeepView>(list: &mut Vec<T>, other: Vec<T>)
    ensures
        final(list)@ == old(list)@ + other@,
        final(list).deep_view() == old(list).deep_view() + other.deep_view(),
{
    let ghost before = list.deep_view();
    let mut other = other;
    let ghost added = other.deep_view();
    list.append(&mut other);
    assert(list.deep_view() =~= before + added);
}

/// The values of a list of results, in order, where each of them is a value;
/// else the error that comes first in the list.
pub open spec fn all_or_first_error<T>(results: Seq<Result<T, ErrorView>>) -> Result<
    Seq<T>,
    ErrorView,
>
    decreases results.len(),
{
    if results.len() == 0 {
        Ok(Seq::empty())
    } else {
        match all_or_first_error(results.drop_last()) {
            Err(error) => Err(error),
            Ok(values) => match results.last() {
                Err(error) => Err(error),
                Ok(value) => Ok(values.push(value)),
            },
        }
    }
}

/// Unfolds `all_or_first_error` at the prefix of length `n + 1`.
pub proof fn lemma_all_or_first_error_step<T>(results: Seq<Result<T, ErrorView>>, n: int)
    requires
        0 <= n < results.len(),
    ensures
        all_or_first_error(results.take(n + 1)) == (match all_or_first_error(results.take(n)) {
            Err(error) => Err(error),
            Ok(values) => match results[n] {
                Err(error) => Err(error),
                Ok(value) => Ok(values.push(value)),
            },
        }),
{
    assert(results.take(n + 1).drop_last() =~= results.take(n));
}

/// Once a prefix of the list has failed, the whole list fails with the same
/// error.
pub proof fn lemma_all_or_first_error_prefix<T>(results: Seq<Result<T, ErrorView>>, n: int)
    requires
        0 <= n <= results.len(),
        all_or_first_error(results.take(n)) is Err,
    ensures
        all_or_first_error(results) == all_or_first_error(results.take(n)),
    decreases results.len() - n,
{
    if n == results.len() {
        assert(results.take(n) =~= results);
    } else {
        lemma_all_or_first_error_step(results, n);
        lemma_all_or_first_error_prefix(results, n + 1);
    }
}

/// A list of results is a list of values exactly where none of them is an
/// error; the values then stand at the places of their results.
pub proof fn lemma_all_or_first_error_ok<T>(results: Seq<Result<T, ErrorView>>)
    ensures
        all_or_first_error(results) is Ok <==> (forall|i: int|
            0 <= i < results.len() ==> (#[trigger] results[i]) is Ok),
        all_or_first_error(results) matches Ok(values) ==> values.len() == results.len() && (
        forall|i: int| 0 <= i < results.len() ==> results[i] == Ok::<T, ErrorView>(#[trigger] values[i])),
    decreases results.len(),
{
    if results.len() > 0 {
        let front = results.drop_last();
        lemma_all_or_first_error_ok(front);
        if all_or_first_error(results) is Ok {
            assert forall|i: int| 0 <= i < results.len() implies (#[trigger] results[i]) is Ok by {
                if i < front.len() {
                    assert(front[i] == results[i]);
                }
            }
            let values = all_or_first_error(results)->Ok_0;
            assert forall|i: int| 0 <= i < results.len() implies results[i] == Ok::<T, ErrorView>(
                #[trigger] values[i],
            ) by {
                if i < front.len() {
                    assert(front[i] == results[i]);
                }
            }
        } else {
            if all_or_first_error(front) is Err {
                let i = choose|i: int| 0 <= i < front.len() && !((#[trigger] front[i]) is Ok);
                assert(front[i] == results[i]);
            }
        }
    }
}

} // verus!
