//! Reading a list element by element: every element must be sound, and the
//! first one that is not decides the fault.

use vstd::prelude::*;
use crate::error::SchemaError;

verus! {

/// The element at position `i` is faulty and none before it is.
pub open spec fn is_first_fault<E>(results: Seq<Result<E, SchemaError>>, i: int) -> bool {
    &&& 0 <= i < results.len()
    &&& results[i] is Err
    &&& forall|j: int| 0 <= j < i ==> (#[trigger] results[j]) is Ok
}

/// What every result holds, in order, where all are sound, and the fault of
/// the first one that is not otherwise.
pub open spec fn all_or_first_fault<E>(results: Seq<Result<E, SchemaError>>) -> Result<
    Seq<E>,
    SchemaError,
> {
    if exists|i: int| is_first_fault(results, i) {
        Err(results[choose|i: int| is_first_fault(results, i)]->Err_0)
    } else {
        Ok(Seq::new(results.len(), |i: int| results[i]->Ok_0))
    }
}

/// A list whose element at position `i` is the first faulty one has the fault
/// of that element.
pub proof fn lemma_first_fault_decides<E>(results: Seq<Result<E, SchemaError>>, i: int)
    requires
        is_first_fault(results, i),
    ensures
        all_or_first_fault(results) matches Err(fault) && fault == results[i]->Err_0,
{
    let k = choose|k: int| is_first_fault(results, k);
    if k < i {
        assert(results[k] is Ok);
    } else if i < k {
        assert(results[i] is Ok);
    }
}

/// A list with a faulty element has a first faulty element.
pub proof fn lemma_some_fault_is_first<E>(results: Seq<Result<E, SchemaError>>, i: int)
    requires
        0 <= i < results.len(),
        results[i] is Err,
    ensures
        exists|k: int| 0 <= k <= i && is_first_fault(results, k),
    decreases i,
{
    if exists|j: int| 0 <= j < i && (#[trigger] results[j]) is Err {
        let j = choose|j: int| 0 <= j < i && (#[trigger] results[j]) is Err;
        lemma_some_fault_is_first(results, j);
    } else {
        assert(is_first_fault(results, i));
    }
}

/// A list is sound exactly when each of its elements is, and then holds what
/// the elements hold, one for one.
pub proof fn lemma_sound_list<E>(results: Seq<Result<E, SchemaError>>)
    ensures
        all_or_first_fault(results) is Ok <==> forall|i: int|
            0 <= i < results.len() ==> (#[trigger] results[i]) is Ok,
        all_or_first_fault(results) matches Ok(all) ==> all.len() == results.len() && forall|
            i: int,
        |
            0 <= i < results.len() ==> results[i] == Ok::<E, SchemaError>(#[trigger] all[i]),
{
    if exists|i: int| 0 <= i < results.len() && (#[trigger] results[i]) is Err {
        let i = choose|i: int| 0 <= i < results.len() && (#[trigger] results[i]) is Err;
        lemma_some_fault_is_first(results, i);
    }
}

} // verus!
