//! The frame sequence: which zoom levels are rendered, and how the finished
//! renders are gathered into one ordered animation.

use vstd::prelude::*;

verus! {

/// Why a zoom range cannot be rendered.
#[derive(Clone, Copy, Debug, PartialEq, Eq, Structural)]
pub enum RangeError {
    /// The range ends before it starts.
    Inverted,
}

/// The zoom levels `start, start + 1, ..., end - 1`, in the order in which
/// their frames appear in the animation. An inverted range is refused.
pub fn zoom_levels(start: i32, end: i32) -> (r: Result<Vec<i32>, RangeError>)
    ensures
        r is Err <==> start > end,
        r matches Ok(v) ==> {
            &&& v@.len() == end - start
            &&& forall|i: int| 0 <= i < v@.len() ==> #[trigger] v@[i] == start + i
        },
{
    if start > end {
        return Err(RangeError::Inverted);
    }
    let mut v: Vec<i32> = Vec::new();
    let mut z: i32 = start;
    while z < end
        invariant
            start <= z <= end,
            v@.len() == z - start,
            forall|i: int| 0 <= i < v@.len() ==> #[trigger] v@[i] == start + i,
        decreases end - z,
    {
        v.push(z);
        z = z + 1;
    }
    Ok(v)
}

/// `k` is the index of the earliest failed render in `results`.
pub open spec fn first_failure<T, E>(results: Seq<Result<T, E>>, k: int) -> bool {
    &&& 0 <= k < results.len()
    &&& results[k] is Err
    &&& forall|j: int| 0 <= j < k ==> #[trigger] results[j] is Ok
}

/// Gathers the outcomes of the render tasks, given in submission order, into
/// the ordered sequence of frames. Frames keep the submission order whatever
/// order the tasks finished in; if any task failed, no frame is delivered and
/// the failure of the earliest failed task is returned.
pub fn collect_in_order<T, E>(results: Vec<Result<T, E>>) -> (r: Result<Vec<T>, E>)
    ensures
        r is Ok <==> forall|i: int| 0 <= i < results@.len() ==> #[trigger] results@[i] is Ok,
        r matches Ok(v) ==> {
            &&& v@.len() == results@.len()
            &&& forall|i: int| 0 <= i < v@.len() ==> results@[i] == Ok::<T, E>(#[trigger] v@[i])
        },
        r matches Err(e) ==> exists|k: int|
            first_failure(results@, k) && #[trigger] results@[k] == Err::<T, E>(e),
{
    let n: usize = results.len();
    let mut pending: Vec<Result<T, E>> = results;
    let mut backwards: Vec<Result<T, E>> = Vec::new();
    while pending.len() > 0
        invariant
            n == results@.len(),
            pending@.len() + backwards@.len() == n,
            pending@ == results@.subrange(0, pending@.len() as int),
            forall|j: int|
                0 <= j < backwards@.len() ==> #[trigger] backwards@[j] == results@[n - 1 - j],
        decreases pending@.len(),
    {
        let item = pending.pop().unwrap();
        backwards.push(item);
        proof {
            assert(pending@ =~= results@.subrange(0, pending@.len() as int));
        }
    }
    let mut frames: Vec<T> = Vec::new();
    while backwards.len() > 0
        invariant
            n == results@.len(),
            frames@.len() + backwards@.len() == n,
            forall|j: int|
                0 <= j < backwards@.len() ==> #[trigger] backwards@[j] == results@[n - 1 - j],
            forall|i: int| 0 <= i < frames@.len() ==> results@[i] == Ok::<T, E>(#[trigger] frames@[i]),
        decreases backwards@.len(),
    {
        let k: usize = frames.len();
        let item = backwards.pop().unwrap();
        assert(item == results@[k as int]);
        match item {
            Ok(frame) => frames.push(frame),
            Err(e) => {
                assert(first_failure(results@, k as int)) by {
                    assert forall|j: int| 0 <= j < k implies #[trigger] results@[j] is Ok by {
                        assert(results@[j] == Ok::<T, E>(frames@[j]));
                    }
                }
                return Err(e);
            },
        }
    }
    proof {
        assert forall|i: int| 0 <= i < results@.len() implies #[trigger] results@[i] is Ok by {
            assert(results@[i] == Ok::<T, E>(frames@[i]));
        }
    }
    Ok(frames)
}

} // verus!
