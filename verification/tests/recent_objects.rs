use osu_difficulty::recent::{RecentObjects, MAX_RECENT_OBJECTS, NOTE_LIMIT};

fn contents(history: &RecentObjects<u32>) -> Vec<u32> {
    (0..history.len()).map(|i| *history.get(i)).collect()
}

#[test]
fn new_history_is_empty() {
    let history: RecentObjects<u32> = RecentObjects::new();
    assert_eq!(history.len(), 0);
    assert!(history.is_empty());
    assert!(history.newest().is_none());
    assert_eq!(history.lookback_len(), 0);
}

#[test]
fn push_puts_newest_first() {
    let mut history = RecentObjects::new();
    history.push(1u32);
    history.push(2);
    history.push(3);
    assert_eq!(contents(&history), vec![3, 2, 1]);
    assert_eq!(history.newest(), Some(&3));
    assert!(!history.is_empty());
}

#[test]
fn history_keeps_only_the_newest_eight() {
    let mut history = RecentObjects::new();
    for i in 1..=10u32 {
        history.push(i);
    }
    assert_eq!(history.len(), MAX_RECENT_OBJECTS);
    assert_eq!(contents(&history), vec![10, 9, 8, 7, 6, 5, 4, 3]);
}

#[test]
fn full_history_drops_exactly_the_oldest() {
    let mut history = RecentObjects::new();
    for i in 1..=8u32 {
        history.push(i);
    }
    assert_eq!(contents(&history), vec![8, 7, 6, 5, 4, 3, 2, 1]);
    history.push(9);
    assert_eq!(contents(&history), vec![9, 8, 7, 6, 5, 4, 3, 2]);
}

#[test]
fn lookback_is_limited_to_six() {
    let mut history = RecentObjects::new();
    for i in 0..4u32 {
        history.push(i);
    }
    assert_eq!(history.lookback_len(), 4);
    for i in 0..4u32 {
        history.push(i);
    }
    assert_eq!(history.len(), 8);
    assert_eq!(history.lookback_len(), NOTE_LIMIT);
    assert_eq!(NOTE_LIMIT, 6);
}

#[test]
fn pushed_item_moves_back_one_place_per_push() {
    let mut history = RecentObjects::new();
    history.push(42u32);
    for k in 0..7usize {
        assert_eq!(*history.get(k), 42);
        history.push(k as u32);
    }
    assert_eq!(*history.get(7), 42);
    history.push(100);
    assert!(!contents(&history).contains(&42));
}
