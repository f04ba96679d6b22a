//! What a response yields once its items went through the caller's conversion.

use vstd::prelude::*;
use crate::error::Error;

verus! {

/// Which attributes a write returns.
#[derive(Debug, Clone, Copy, PartialEq)]
pub enum ReturnValue {
    /// All attributes of the item as they are after the write.
    AllNew,
    /// All attributes of the item as they were before the write.
    AllOld,
    /// No attributes.
    Nothing,
    /// The updated attributes as they are after the write.
    UpdatedNew,
    /// The updated attributes as they were before the write.
    UpdatedOld,
}

/// The first failure among `converted`, if there is one.
pub open spec fn first_failure<T, E>(converted: Seq<Result<T, E>>) -> Option<E>
    decreases converted.len(),
{
    if converted.len() == 0 {
        None
    } else {
        match converted[0] {
            Err(cause) => Some(cause),
            Ok(_) => first_failure(converted.skip(1)),
        }
    }
}

/// The records of `converted`, in order, where every conversion succeeded.
pub open spec fn records<T, E>(converted: Seq<Result<T, E>>) -> Seq<T> {
    converted.map_values(|r: Result<T, E>| r->Ok_0)
}

/// There is no first failure exactly where every conversion succeeded.
pub proof fn lemma_first_failure<T, E>(converted: Seq<Result<T, E>>)
    ensures
        first_failure(converted) is None <==> forall|i: int|
            0 <= i < converted.len() ==> (#[trigger] converted[i]) is Ok,
    decreases converted.len(),
{
    if converted.len() > 0 {
        let rest = converted.skip(1);
        lemma_first_failure(rest);
        if first_failure(converted) is None {
            assert forall|i: int| 0 <= i < converted.len() implies (
            #[trigger] converted[i]) is Ok by {
                if i > 0 {
                    assert(rest[i - 1] is Ok);
                }
            }
        } else {
            if converted[0] is Ok {
                let i = choose|i: int| 0 <= i < rest.len() && !((#[trigger] rest[i]) is Ok);
                assert(converted[i + 1] == rest[i]);
            }
        }
    }
}

/// The outcome of a response with at most one item: the record, or nothing
/// where no item came back, or the conversion failure.
pub fn conversion_result<T, E>(converted: Option<Result<T, E>>) -> (result: Result<
    Option<T>,
    Error<E>,
>)
    ensures
        result == match converted {
            None => Ok::<Option<T>, Error<E>>(None),
            Some(Ok(record)) => Ok(Some(record)),
            Some(Err(cause)) => Err(Error::Conversion(cause)),
        },
{
    match converted {
        None => Ok(None),
        Some(Ok(record)) => Ok(Some(record)),
        Some(Err(cause)) => Err(Error::Conversion(cause)),
    }
}

/// The outcome of a response with many items: all records in the order of the
/// response, or the first conversion failure, which aborts the whole batch.
pub fn collect_records<T, E>(converted: Vec<Result<T, E>>) -> (result: Result<Vec<T>, Error<E>>)
    ensures
        result is Ok <==> forall|i: int|
            0 <= i < converted@.len() ==> (#[trigger] converted@[i]) is Ok,
        match result {
            Ok(items) => items@ == records(converted@),
            Err(error) => error is Conversion && first_failure(converted@) == Some(
                error->Conversion_0,
            ),
        },
{
    proof {
        lemma_first_failure(converted@);
    }
    let ghost all = converted@;
    let mut source = converted;
    let mut items: Vec<T> = Vec::new();
    let mut failure: Option<E> = None;
    // Taken from the back, the failure that stays is the first one.
    while source.len() > 0
        invariant
            source@.len() <= all.len(),
            source@ == all.take(source@.len() as int),
            failure == first_failure(all.skip(source@.len() as int)),
            failure is None ==> items@.len() == all.len() - source@.len(),
            failure is None ==> forall|j: int|
                0 <= j < items@.len() ==> items@[j] == (#[trigger] all[all.len() - 1 - j])->Ok_0,
        decreases source@.len(),
    {
        let ghost n = source@.len() as int;
        let entry = source.pop().unwrap();
        proof {
            assert(entry == all[n - 1]);
            assert(source@ =~= all.take(n - 1));
            assert(all.skip(n - 1).skip(1) =~= all.skip(n));
            assert(all.skip(n - 1)[0] == all[n - 1]);
        }
        match entry {
            Ok(record) => {
                if failure.is_none() {
                    items.push(record);
                }
            },
            Err(cause) => {
                failure = Some(cause);
            },
        }
    }
    proof {
        assert(all.skip(0) =~= all);
    }
    match failure {
        Some(cause) => Err(Error::Conversion(cause)),
        None => {
            let mut ordered: Vec<T> = Vec::new();
            while items.len() > 0
                invariant
                    items@.len() + ordered@.len() == all.len(),
                    forall|j: int|
                        0 <= j < items@.len() ==> items@[j] == (#[trigger] all[all.len() - 1
                            - j])->Ok_0,
                    forall|j: int| 0 <= j < ordered@.len() ==> ordered@[j] == (#[trigger] all[j])->Ok_0,
                decreases items@.len(),
            {
                let ghost m = items@.len() as int;
                let record = items.pop().unwrap();
                proof {
                    assert(record == all[all.len() - 1 - (m - 1)]->Ok_0);
                }
                ordered.push(record);
            }
            proof {
                assert(ordered@ =~= records(all));
            }
            Ok(ordered)
        },
    }
}

} // verus!
