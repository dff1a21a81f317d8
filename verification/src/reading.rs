//! The object indices that the reading evaluator and the reading skill visit.
use vstd::prelude::*;

verus! {

/// The neighbour after `index` that shapes the future density, if there is one.
pub fn next_object_index(index: usize, n_objects: usize) -> (r: Option<usize>)
    ensures
        r == (if index + 1 < n_objects {
            Some((index + 1) as usize)
        } else {
            None::<usize>
        }),
{
    if index < n_objects && n_objects - index > 1 {
        Some(index + 1)
    } else {
        None
    }
}

/// The index of the object `steps` places before the object at `index`,
/// the order in which the constant angle check walks back through the past.
pub fn lookback_object_index(index: usize, steps: usize) -> (r: usize)
    requires
        steps < index,
    ensures
        r == index - 1 - steps,
        r < index,
{
    index - 1 - steps
}

/// How many objects count as played in the memorised opening: the objects
/// that start within the first ~60 seconds (`window_count`, counted by the
/// caller from the object times), never more than the objects that have a
/// difficulty.
pub fn reduced_note_count(window_count: usize, n_object_difficulties: usize) -> (r: usize)
    ensures
        r == (if window_count < n_object_difficulties {
            window_count
        } else {
            n_object_difficulties
        }),
        r <= window_count,
        r <= n_object_difficulties,
{
    if window_count < n_object_difficulties {
        window_count
    } else {
        n_object_difficulties
    }
}

/// How many of the sorted difficulties get the memorisation reduction:
/// `None` when there is nothing to reduce (no difficulties, or no reduced
/// notes), otherwise the smaller of the two counts.
pub fn reduced_prefix_len(n_difficulties: usize, reduced_note_count: usize) -> (r: Option<
    usize,
>)
    ensures
        r == (if n_difficulties == 0 || reduced_note_count == 0 {
            None::<usize>
        } else if n_difficulties < reduced_note_count {
            Some(n_difficulties)
        } else {
            Some(reduced_note_count)
        }),
        r matches Some(c) ==> 0 < c <= n_difficulties && c <= reduced_note_count,
{
    if n_difficulties == 0 || reduced_note_count == 0 {
        None
    } else if n_difficulties < reduced_note_count {
        Some(n_difficulties)
    } else {
        Some(reduced_note_count)
    }
}

} // verus!
