//! How many hit objects a (possibly partial) play covers.
use vstd::prelude::*;

verus! {

/// The fewest objects that give a map any strain: the first object has no
/// predecessor and so no strain of its own.
pub const MIN_RATED_OBJECTS: usize = 2;

/// The number of objects to take from the map: the passed objects of a
/// partial play, or otherwise the map's object count taken as a `u32`.
pub open spec fn spec_objects_to_take(passed_objects: Option<u32>, n_objects: usize) -> usize {
    match passed_objects {
        Some(p) => p as usize,
        None => (n_objects as u32) as usize,
    }
}

/// The requested number of objects when at least `MIN_RATED_OBJECTS` are
/// requested, and `None` otherwise.
pub open spec fn spec_rated_object_count(passed_objects: Option<u32>, n_objects: usize) -> Option<
    usize,
> {
    if spec_objects_to_take(passed_objects, n_objects) < MIN_RATED_OBJECTS {
        None
    } else {
        Some(spec_objects_to_take(passed_objects, n_objects))
    }
}

/// The number of objects to take from the map.
pub fn objects_to_take(passed_objects: Option<u32>, n_objects: usize) -> (r: usize)
    ensures
        r == spec_objects_to_take(passed_objects, n_objects),
        passed_objects matches Some(p) ==> r == p,
        passed_objects is None ==> r == n_objects as int % 0x1_0000_0000,
{
    let take: u32 = match passed_objects {
        Some(p) => p,
        None => n_objects as u32,
    };
    proof {
        lemma_objects_to_take(passed_objects, n_objects);
    }
    take as usize
}

/// The requested number of objects, or `None` when fewer than
/// `MIN_RATED_OBJECTS` are requested, so that only the map's base attributes
/// are reported. The count is not capped by the map's length: taking objects
/// from the map stops at its end anyway.
pub fn rated_object_count(passed_objects: Option<u32>, n_objects: usize) -> (r: Option<usize>)
    ensures
        r == spec_rated_object_count(passed_objects, n_objects),
        r is None <==> objects_to_take_count(passed_objects, n_objects) < MIN_RATED_OBJECTS,
        r matches Some(t) ==> t == objects_to_take_count(passed_objects, n_objects),
{
    proof {
        lemma_rated_object_count(passed_objects, n_objects);
    }
    let take = objects_to_take(passed_objects, n_objects);
    if take < MIN_RATED_OBJECTS {
        None
    } else {
        Some(take)
    }
}

/// The requested count, stated from the inputs alone: the passed objects of a
/// partial play, otherwise the map's object count modulo 2^32.
pub open spec fn objects_to_take_count(passed_objects: Option<u32>, n_objects: usize) -> int {
    match passed_objects {
        Some(p) => p as int,
        None => n_objects as int % 0x1_0000_0000,
    }
}

/// A partial play requests exactly its passed objects; a full play requests
/// the map's object count, which fits unless the map has 2^32 objects or more.
pub proof fn lemma_objects_to_take(passed_objects: Option<u32>, n_objects: usize)
    ensures
        spec_objects_to_take(passed_objects, n_objects) == objects_to_take_count(
            passed_objects,
            n_objects,
        ),
        n_objects <= u32::MAX ==> spec_objects_to_take(None, n_objects) == n_objects,
{
    assert((n_objects as u32) as int == n_objects as int % 0x1_0000_0000) by (bit_vector);
}

/// A play is rated exactly when at least `MIN_RATED_OBJECTS` objects are
/// requested, and then over every requested object: a partial play over its
/// passed objects, a full play of a map with at least two objects (and fewer
/// than 2^32) over all of them.
pub proof fn lemma_rated_object_count(passed_objects: Option<u32>, n_objects: usize)
    ensures
        spec_rated_object_count(passed_objects, n_objects) is None
            <==> objects_to_take_count(passed_objects, n_objects) < MIN_RATED_OBJECTS,
        spec_rated_object_count(passed_objects, n_objects) matches Some(t)
            ==> t == objects_to_take_count(passed_objects, n_objects),
        passed_objects matches Some(p) ==> (p >= MIN_RATED_OBJECTS ==> spec_rated_object_count(
            passed_objects,
            n_objects,
        ) == Some(p as usize)),
        passed_objects is None && MIN_RATED_OBJECTS <= n_objects <= u32::MAX
            ==> spec_rated_object_count(passed_objects, n_objects) == Some(n_objects),
{
    lemma_objects_to_take(passed_objects, n_objects);
}

/// The number of difficulty objects processed when `take` objects are
/// requested from a map with `n_difficulty_objects` of them: every object but
/// the first has one, and taking stops at the end of the map.
pub open spec fn spec_played_difficulty_objects(take: nat, n_difficulty_objects: nat) -> nat {
    if take - 1 < n_difficulty_objects {
        (take - 1) as nat
    } else {
        n_difficulty_objects
    }
}

/// How many of a map's difficulty objects a play of `take` objects processes.
pub fn played_difficulty_objects(take: usize, n_difficulty_objects: usize) -> (r: usize)
    requires
        take >= MIN_RATED_OBJECTS,
    ensures
        r == spec_played_difficulty_objects(take as nat, n_difficulty_objects as nat),
        r < take,
        r <= n_difficulty_objects,
        r == take - 1 || r == n_difficulty_objects,
        take - 1 <= n_difficulty_objects ==> r == take - 1,
{
    proof {
        lemma_played_difficulty_objects(take as nat, n_difficulty_objects as nat);
    }
    if take - 1 < n_difficulty_objects {
        take - 1
    } else {
        n_difficulty_objects
    }
}

/// A play of `take >= 1` objects processes the smaller of `take - 1` and the
/// map's difficulty objects: no more than either, and one of the two.
pub proof fn lemma_played_difficulty_objects(take: nat, n_difficulty_objects: nat)
    requires
        take >= 1,
    ensures
        spec_played_difficulty_objects(take, n_difficulty_objects) <= take - 1,
        spec_played_difficulty_objects(take, n_difficulty_objects) <= n_difficulty_objects,
        spec_played_difficulty_objects(take, n_difficulty_objects) == take - 1
            || spec_played_difficulty_objects(take, n_difficulty_objects) == n_difficulty_objects,
{
}

/// A partial play of `n` passed objects is rated as the map cut after its
/// `n`-th object and played in full: both are rated or neither is, with the
/// same requested count, and when rated both process the same difficulty
/// objects (a map of `m` objects has `m - 1` of them).
pub proof fn lemma_partial_play_is_cut_map(n: u32, n_map_objects: usize)
    requires
        n as usize <= n_map_objects,
    ensures
        spec_rated_object_count(Some(n), n_map_objects) == spec_rated_object_count(
            None,
            n as usize,
        ),
        spec_rated_object_count(Some(n), n_map_objects) matches Some(take)
            ==> spec_played_difficulty_objects(take as nat, (n_map_objects - 1) as nat)
            == spec_played_difficulty_objects(take as nat, (n - 1) as nat),
{
}

/// A map with at most `u32::MAX` objects played in full is taken whole.
pub proof fn lemma_full_play_takes_all(n_objects: usize)
    requires
        n_objects <= u32::MAX,
    ensures
        spec_objects_to_take(None, n_objects) == n_objects,
{
}

} // verus!
