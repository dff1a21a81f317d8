use osu_difficulty::partial::{objects_to_take, played_difficulty_objects, rated_object_count};
use osu_difficulty::reading::{
    lookback_object_index, next_object_index, reduced_note_count, reduced_prefix_len,
};

#[test]
fn next_object_exists_only_before_the_last() {
    assert_eq!(next_object_index(0, 3), Some(1));
    assert_eq!(next_object_index(1, 3), Some(2));
    assert_eq!(next_object_index(2, 3), None);
    assert_eq!(next_object_index(0, 0), None);
    assert_eq!(next_object_index(5, 3), None);
    assert_eq!(next_object_index(usize::MAX, usize::MAX), None);
}

#[test]
fn lookback_walks_backwards() {
    assert_eq!(lookback_object_index(5, 0), 4);
    assert_eq!(lookback_object_index(5, 4), 0);
}

#[test]
fn reduced_notes_are_the_opening_window() {
    assert_eq!(reduced_note_count(0, 0), 0);
    assert_eq!(reduced_note_count(40, 200), 40);
    assert_eq!(reduced_note_count(200, 200), 200);
    assert_eq!(reduced_note_count(250, 17), 17);
    assert_eq!(reduced_note_count(0, 17), 0);
}

#[test]
fn reduced_prefix_is_the_smaller_count() {
    assert_eq!(reduced_prefix_len(0, 5), None);
    assert_eq!(reduced_prefix_len(5, 0), None);
    assert_eq!(reduced_prefix_len(3, 5), Some(3));
    assert_eq!(reduced_prefix_len(7, 5), Some(5));
    assert_eq!(reduced_prefix_len(4, 4), Some(4));
}

#[test]
fn passed_objects_override_the_map() {
    assert_eq!(objects_to_take(Some(10), 500), 10);
    assert_eq!(objects_to_take(None, 500), 500);
    assert_eq!(objects_to_take(Some(900), 500), 900);
}

#[test]
fn fewer_than_two_objects_get_no_rating() {
    assert_eq!(rated_object_count(None, 0), None);
    assert_eq!(rated_object_count(None, 1), None);
    assert_eq!(rated_object_count(Some(1), 500), None);
    assert_eq!(rated_object_count(Some(0), 500), None);
    assert_eq!(rated_object_count(None, 2), Some(2));
    assert_eq!(rated_object_count(Some(2), 1), Some(2));
}

#[test]
fn unplayed_map_count_is_taken_as_u32() {
    if usize::BITS > 32 {
        let huge = (1usize << 32) + 3;
        assert_eq!(objects_to_take(None, huge), 3);
    }
}

#[test]
fn played_objects_stop_at_the_cut_or_the_map_end() {
    assert_eq!(played_difficulty_objects(2, 10), 1);
    assert_eq!(played_difficulty_objects(5, 10), 4);
    assert_eq!(played_difficulty_objects(11, 10), 10);
    assert_eq!(played_difficulty_objects(500, 10), 10);
    assert_eq!(played_difficulty_objects(3, 0), 0);
}

#[test]
fn partial_play_matches_the_cut_map() {
    let n_map_objects = 50usize;
    for n in 0..=50u32 {
        let partial = rated_object_count(Some(n), n_map_objects);
        let cut = rated_object_count(None, n as usize);
        assert_eq!(partial, cut);
        if let Some(take) = partial {
            assert_eq!(
                played_difficulty_objects(take, n_map_objects - 1),
                played_difficulty_objects(take, n as usize - 1)
            );
        }
    }
}
