//! The one-shot query path.
//!
//! Independent of the mailbox, a caller may query several actors at
//! once and gather the deferred answers. The gathered outcome keeps
//! submission order and completes only when every query has completed:
//! a single failed query surfaces as a failure of the whole collection,
//! carrying the first failure encountered in submission order.

use vstd::prelude::*;

verus! {

/// Collect the outcomes of a group of one-shot queries, in submission
/// order. If every query succeeded, the result is `Ok` of all the
/// answers, in the same order; otherwise the whole collection fails
/// with the first failure.
pub fn collect_results<T, E>(outcomes: Vec<Result<T, E>>) -> (r: Result<Vec<T>, E>)
    ensures
        (r is Ok) <==> (forall|i: int|
            0 <= i < outcomes@.len() ==> (#[trigger] outcomes@[i]) is Ok),
        r is Ok ==> r->Ok_0@.len() == outcomes@.len(),
        r is Ok ==> forall|i: int|
            0 <= i < outcomes@.len() ==> r->Ok_0@[i] == (#[trigger] outcomes@[i])->Ok_0,
        r is Err ==> exists|i: int|
            {
                &&& 0 <= i < outcomes@.len()
                &&& (#[trigger] outcomes@[i]) is Err
                &&& r->Err_0 == outcomes@[i]->Err_0
                &&& forall|j: int| 0 <= j < i ==> (#[trigger] outcomes@[j]) is Ok
            },
{
    let ghost orig: Seq<Result<T, E>> = outcomes@;
    let mut rest = outcomes;
    let mut answers: Vec<T> = Vec::new();
    while rest.len() > 0
        invariant
            orig == outcomes@,
            answers@.len() + rest@.len() == orig.len(),
            rest@ == orig.skip(answers@.len() as int),
            forall|j: int| 0 <= j < answers@.len() ==> (#[trigger] orig[j]) is Ok,
            forall|j: int| 0 <= j < answers@.len() ==> answers@[j] == (#[trigger] orig[j])->Ok_0,
        decreases rest@.len(),
    {
        let ghost k = answers@.len() as int;
        let next = rest.remove(0);
        proof {
            assert(next == orig[k]);
            assert(orig.skip(k).remove(0) =~= orig.skip(k + 1));
        }
        match next {
            Ok(t) => {
                answers.push(t);
            },
            Err(e) => {
                proof {
                    assert((outcomes@[k]) is Err);
                    assert(forall|j: int| 0 <= j < k ==> (#[trigger] outcomes@[j]) is Ok);
                }
                return Err(e);
            },
        }
    }
    Ok(answers)
}

} // verus!
