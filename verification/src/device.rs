//! Choice of the physical device.

use vstd::prelude::*;
use crate::driver;

verus! {

/// Why a selection produced no result.
#[derive(Clone, Copy, Debug, PartialEq, Eq, Structural)]
pub enum SelectionError {
    /// No candidate device is a discrete GPU.
    NoDiscreteGpu,
    /// No family with at least one queue supports graphics.
    NoGraphicsQueue,
    /// No family with at least one queue supports transfers.
    NoTransferQueue,
}

/// Whether a raw device-type tag denotes a discrete GPU.
pub open spec fn is_discrete(tag: i32) -> bool {
    tag == driver::DISCRETE_GPU
}

/// Whether any of the candidates is a discrete GPU.
pub open spec fn has_discrete(tags: Seq<i32>) -> bool {
    exists|j: int| 0 <= j < tags.len() && is_discrete(#[trigger] tags[j])
}

/// Whether `i` is the position of the last discrete GPU among the first `n`
/// candidates.
pub open spec fn last_discrete_within(tags: Seq<i32>, n: int, i: int) -> bool {
    &&& 0 <= i < n <= tags.len()
    &&& is_discrete(tags[i])
    &&& forall|j: int| i < j < n ==> !is_discrete(#[trigger] tags[j])
}

/// Whether `i` is the position of the last discrete GPU in the list.
pub open spec fn is_last_discrete(tags: Seq<i32>, i: int) -> bool {
    last_discrete_within(tags, tags.len() as int, i)
}

/// Picks the device to use from the device-type tags of all candidates, in
/// enumeration order. The last discrete GPU wins; without one there is no
/// fallback to another device type.
pub fn select_physical_device(tags: &Vec<i32>) -> (r: Result<usize, SelectionError>)
    ensures
        r.is_ok() <==> has_discrete(tags@),
        match r {
            Ok(i) => is_last_discrete(tags@, i as int),
            Err(e) => e == SelectionError::NoDiscreteGpu,
        },
{
    let mut chosen: Option<usize> = None;
    let mut i: usize = 0;
    while i < tags.len()
        invariant
            i <= tags.len(),
            match chosen {
                Some(k) => last_discrete_within(tags@, i as int, k as int),
                None => forall|j: int| 0 <= j < i ==> !is_discrete(#[trigger] tags@[j]),
            },
        decreases tags.len() - i,
    {
        if driver::is_discrete_gpu(tags[i]) {
            chosen = Some(i);
        }
        i += 1;
    }
    match chosen {
        Some(k) => Ok(k),
        None => Err(SelectionError::NoDiscreteGpu),
    }
}

/// A list has at most one last discrete GPU: the contract of
/// [`select_physical_device`] leaves no freedom in the result.
pub proof fn lemma_last_discrete_unique(tags: Seq<i32>, i: int, j: int)
    requires
        is_last_discrete(tags, i),
        is_last_discrete(tags, j),
    ensures
        i == j,
{
}

/// The chosen device is the discrete GPU that comes latest in the
/// enumeration: every discrete GPU sits at or before it.
pub proof fn lemma_last_discrete_dominates(tags: Seq<i32>, i: int, k: int)
    requires
        is_last_discrete(tags, i),
        0 <= k < tags.len(),
        is_discrete(tags[k]),
    ensures
        k <= i,
{
}

} // verus!
