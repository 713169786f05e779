use versioned_store::aux_map::{AuxMap, BLOAT_COUNT};

fn pair(key: &str, value: &str) -> (String, String) {
    (key.to_string(), value.to_string())
}

#[test]
fn new_map_is_empty() {
    let map = AuxMap::new();
    assert_eq!(map.len(), 0);
    assert_eq!(map.to_vec(), vec![]);
}

#[test]
fn insert_appends_new_keys_in_order() {
    let mut map = AuxMap::new();
    map.insert("b".to_string(), "1".to_string());
    map.insert("a".to_string(), "2".to_string());
    map.insert("c".to_string(), "3".to_string());
    assert_eq!(map.len(), 3);
    assert_eq!(map.to_vec(), vec![pair("b", "1"), pair("a", "2"), pair("c", "3")]);
}

#[test]
fn insert_overwrites_in_place() {
    let mut map = AuxMap::new();
    map.insert("b".to_string(), "1".to_string());
    map.insert("a".to_string(), "2".to_string());
    map.insert("b".to_string(), "9".to_string());
    assert_eq!(map.len(), 2);
    assert_eq!(map.to_vec(), vec![pair("b", "9"), pair("a", "2")]);
}

#[test]
fn insert_tells_keys_apart_by_every_character() {
    let mut map = AuxMap::new();
    map.insert("".to_string(), "empty".to_string());
    map.insert("a".to_string(), "a".to_string());
    map.insert("a ".to_string(), "a and space".to_string());
    map.insert("A".to_string(), "capital".to_string());
    assert_eq!(map.len(), 4);
}

#[test]
fn from_vec_upserts_in_turn() {
    let map = AuxMap::from_vec(vec![pair("x", "1"), pair("y", "2"), pair("x", "3")]);
    assert_eq!(map.to_vec(), vec![pair("x", "3"), pair("y", "2")]);
    assert_eq!(map.len(), 2);
}

#[test]
fn to_vec_then_from_vec_gives_the_same_map() {
    let mut map = AuxMap::new();
    map.insert("b".to_string(), "1".to_string());
    map.insert("a".to_string(), "2".to_string());
    let again = AuxMap::from_vec(map.to_vec());
    assert_eq!(again.to_vec(), map.to_vec());
}

#[test]
fn bloat_makes_keys_of_round_and_size() {
    let mut map = AuxMap::new();
    map.bloat();
    assert_eq!(BLOAT_COUNT, 190);
    let pairs = map.to_vec();
    assert_eq!(pairs.len(), 190);
    assert_eq!(
        pairs[0],
        pair(
            "reasonably long time of string that'll take up some storage 0-0",
            "well shucks I guess this should be longer than a short word but nothing comes to mind."
        )
    );
    assert_eq!(
        pairs[17].0,
        "reasonably long time of string that'll take up some storage 17-17"
    );
    assert_eq!(
        pairs[189].0,
        "reasonably long time of string that'll take up some storage 189-189"
    );
    map.bloat();
    let pairs = map.to_vec();
    assert_eq!(pairs.len(), 380);
    assert_eq!(
        pairs[190].0,
        "reasonably long time of string that'll take up some storage 0-190"
    );
    assert_eq!(
        pairs[379].0,
        "reasonably long time of string that'll take up some storage 189-379"
    );
}

#[test]
fn bloat_after_other_entries_counts_from_their_number() {
    let mut map = AuxMap::new();
    map.insert("alice.near".to_string(), "first".to_string());
    map.bloat();
    let pairs = map.to_vec();
    assert_eq!(pairs.len(), 191);
    assert_eq!(pairs[0], pair("alice.near", "first"));
    assert_eq!(
        pairs[1].0,
        "reasonably long time of string that'll take up some storage 0-1"
    );
}

#[test]
fn bloat_overwrites_a_key_that_is_there() {
    let mut map = AuxMap::new();
    map.insert(
        "reasonably long time of string that'll take up some storage 0-1".to_string(),
        "mine".to_string(),
    );
    map.bloat();
    let pairs = map.to_vec();
    assert_eq!(pairs.len(), 190);
    assert_eq!(
        pairs[0].1,
        "well shucks I guess this should be longer than a short word but nothing comes to mind."
    );
    assert_eq!(
        pairs[1].0,
        "reasonably long time of string that'll take up some storage 1-1"
    );
}
