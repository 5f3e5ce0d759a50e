use complementary::level::{CollectedKeys, LevelState};

#[test]
fn level_state_counts_the_keys_of_each_group() {
    let state = LevelState::new(&[3, 1, 3, 3, -7]);
    assert_eq!(
        state.collected_keys(3),
        Some(CollectedKeys { total_key_count: 3, collected_key_count: 0 })
    );
    assert_eq!(
        state.collected_keys(1),
        Some(CollectedKeys { total_key_count: 1, collected_key_count: 0 })
    );
    assert_eq!(
        state.collected_keys(-7),
        Some(CollectedKeys { total_key_count: 1, collected_key_count: 0 })
    );
    assert_eq!(state.collected_keys(2), None);
    assert_eq!(LevelState::new(&[]).collected_keys(0), None);
}

#[test]
fn keys_are_collected_one_by_one() {
    let mut state = LevelState::new(&[3, 1, 3]);
    assert!(!state.all_keys_collected(3));
    assert!(!state.all_keys_collected(1));
    state.add_collected_key(3);
    assert_eq!(
        state.collected_keys(3),
        Some(CollectedKeys { total_key_count: 2, collected_key_count: 1 })
    );
    assert!(!state.all_keys_collected(3));
    state.add_collected_key(1);
    assert!(state.all_keys_collected(1));
    state.add_collected_key(3);
    assert!(state.all_keys_collected(3));
    // One more than there are still counts as all.
    state.add_collected_key(3);
    assert_eq!(
        state.collected_keys(3),
        Some(CollectedKeys { total_key_count: 2, collected_key_count: 3 })
    );
    assert!(state.all_keys_collected(3));
}

#[test]
fn a_key_of_an_unknown_group_opens_a_group_without_keys() {
    let mut state = LevelState::new(&[3]);
    state.add_collected_key(9);
    assert_eq!(
        state.collected_keys(9),
        Some(CollectedKeys { total_key_count: 0, collected_key_count: 1 })
    );
    assert!(state.all_keys_collected(9));
    assert_eq!(
        state.collected_keys(3),
        Some(CollectedKeys { total_key_count: 1, collected_key_count: 0 })
    );
}
