use asmr_player::catalog::{next_playlist_position, split_names, suggestion_items, SuggestionItem};

#[test]
fn names_are_split_trimmed_and_filtered() {
    assert_eq!(split_names(" Aoi , ,Rin,"), vec!["Aoi".to_string(), "Rin".to_string()]);
    assert!(split_names("").is_empty());
    assert_eq!(split_names("solo"), vec!["solo".to_string()]);
}

#[test]
fn playlist_positions_follow_the_largest() {
    assert_eq!(next_playlist_position(None), Some(1));
    assert_eq!(next_playlist_position(Some(4)), Some(5));
    assert_eq!(next_playlist_position(Some(i64::MAX)), None);
}

#[test]
fn suggestions_keep_rows_in_order() {
    let rows = vec![("Circle A".to_string(), 3i64), ("Circle B".to_string(), 0i64)];
    let items: Vec<SuggestionItem> = suggestion_items(&rows);
    assert_eq!(items.len(), 2);
    assert_eq!(items[0].name, "Circle A");
    assert_eq!(items[0].count, 3);
    assert_eq!(items[1].name, "Circle B");
    assert_eq!(items[1].count, 0);
}
