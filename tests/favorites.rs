use asmr_player::favorites::{favorite_ids, favorite_key};

#[test]
fn favorite_keys_carry_the_id() {
    assert_eq!(favorite_key(42), "favorite:42");
    assert_eq!(favorite_key(-7), "favorite:-7");
    assert_eq!(favorite_key(0), "favorite:0");
}

#[test]
fn favorite_ids_skip_other_keys() {
    let keys = vec![
        "favorite:3".to_string(),
        "theme".to_string(),
        "favorite:x1".to_string(),
        "favorite:+12".to_string(),
        "favorite:99999999999999999999".to_string(),
        "favorite:".to_string(),
        "favorite:-5".to_string(),
    ];
    assert_eq!(favorite_ids(&keys), vec![3, 12, -5]);
}

#[test]
fn favorite_key_round_trips() {
    let keys = vec![favorite_key(i64::MAX), favorite_key(i64::MIN)];
    assert_eq!(favorite_ids(&keys), vec![i64::MAX, i64::MIN]);
}
