use versioned_store::contract::Contract;
use versioned_store::error::StoreError;

fn owner() -> String {
    "owner.near".to_string()
}

fn stranger() -> String {
    "stranger.near".to_string()
}

fn text(s: &str) -> String {
    s.to_string()
}

fn three_generations() -> Contract {
    let mut contract = Contract::new(owner(), text("Ada Lovelace"));
    assert_eq!(contract.add_v2_with_color(&owner(), text("blue")), Ok(()));
    assert_eq!(contract.add_v3_and_migrate(&owner()), Ok(()));
    contract
}

#[test]
fn construct_reports_first_generation() {
    let contract = Contract::new(owner(), text("Ada Lovelace"));
    assert_eq!(contract.get_current_version(), Ok(text("gen-1")));
    assert_eq!(contract.get_name(), Ok(text("Ada Lovelace")));
    assert_eq!(contract.get_map_len(), Ok(0));
    assert_eq!(contract.get_map(), Ok(vec![]));
    assert_eq!(contract.owner(), &owner());
    assert_eq!(contract.current_version_index(), 0);
    assert_eq!(contract.versions().len(), 1);
}

#[test]
fn migrations_advance_the_current_generation() {
    let mut contract = Contract::new(owner(), text("Ada Lovelace"));
    assert_eq!(contract.add_v2_with_color(&owner(), text("blue")), Ok(()));
    assert_eq!(contract.get_current_version(), Ok(text("gen-2")));
    assert_eq!(contract.current_version_index(), 1);
    assert_eq!(contract.get_favorite_color(), Ok(text("blue")));
    assert_eq!(contract.get_favorite_musician(), Ok(text("")));
    assert_eq!(contract.add_v3_and_migrate(&owner()), Ok(()));
    assert_eq!(contract.get_current_version(), Ok(text("gen-3")));
    assert_eq!(contract.current_version_index(), 2);
}

#[test]
fn third_generation_splits_the_name() {
    let contract = three_generations();
    let account = contract.get_account().unwrap();
    assert_eq!(account.first_name(), "Ada");
    assert_eq!(account.last_name(), "Lovelace");
    assert_eq!(account.pronoun(), "");
}

#[test]
fn third_generation_of_a_single_word_has_no_last_name() {
    let mut contract = Contract::new(owner(), text("Ada"));
    assert_eq!(contract.add_v2_with_color(&owner(), text("blue")), Ok(()));
    assert_eq!(contract.add_v3_and_migrate(&owner()), Ok(()));
    let account = contract.get_account().unwrap();
    assert_eq!(account.first_name(), "Ada");
    assert_eq!(account.last_name(), "");
}

#[test]
fn third_generation_keeps_what_follows_the_first_space() {
    let mut contract = Contract::new(owner(), text("Augusta Ada King"));
    assert_eq!(contract.add_v2_with_color(&owner(), text("blue")), Ok(()));
    assert_eq!(contract.add_v3_and_migrate(&owner()), Ok(()));
    let account = contract.get_account().unwrap();
    assert_eq!(account.first_name(), "Augusta");
    assert_eq!(account.last_name(), "Ada King");
}

#[test]
fn account_lookup_before_the_third_generation_fails() {
    let mut contract = Contract::new(owner(), text("Ada Lovelace"));
    assert_eq!(contract.get_account().err(), Some(StoreError::IndexOutOfRange));
    assert_eq!(contract.add_v2_with_color(&owner(), text("blue")), Ok(()));
    assert_eq!(contract.get_account().err(), Some(StoreError::IndexOutOfRange));
    assert_eq!(contract.add_v2_with_color(&owner(), text("red")), Ok(()));
    assert_eq!(contract.get_account().err(), Some(StoreError::VersionMismatch));
}

#[test]
fn second_generation_lookup_before_its_migration_is_out_of_range() {
    let contract = Contract::new(owner(), text("Ada Lovelace"));
    assert_eq!(contract.get_favorite_color(), Err(StoreError::IndexOutOfRange));
    assert_eq!(contract.get_favorite_musician(), Err(StoreError::IndexOutOfRange));
    assert_eq!(contract.get_all().err(), Some(StoreError::IndexOutOfRange));
}

#[test]
fn migrations_in_the_wrong_order_give_a_version_mismatch() {
    let mut contract = Contract::new(owner(), text("Ada Lovelace"));
    assert_eq!(contract.add_v3_and_migrate(&owner()), Ok(()));
    assert_eq!(contract.get_favorite_color(), Err(StoreError::VersionMismatch));
    assert_eq!(
        contract.set_favorite_color(&owner(), text("red")),
        Err(StoreError::VersionMismatch)
    );
    assert_eq!(
        contract.set_favorite_musician(&owner(), text("Bach")),
        Err(StoreError::VersionMismatch)
    );
}

#[test]
fn a_second_migration_to_the_second_generation_is_out_of_reach() {
    let mut contract = Contract::new(owner(), text("Ada Lovelace"));
    assert_eq!(contract.add_v2_with_color(&owner(), text("blue")), Ok(()));
    assert_eq!(contract.add_v2_with_color(&owner(), text("red")), Ok(()));
    assert_eq!(contract.versions().len(), 3);
    assert_eq!(contract.current_version_index(), 2);
    assert_eq!(contract.get_current_version(), Ok(text("gen-2")));
    assert_eq!(contract.get_favorite_color(), Ok(text("blue")));
}

#[test]
fn set_name_is_idempotent() {
    let mut contract = Contract::new(owner(), text("Ada Lovelace"));
    assert_eq!(contract.set_name(&owner(), text("Grace Hopper")), Ok(()));
    assert_eq!(contract.get_name(), Ok(text("Grace Hopper")));
    let once = contract.log_version_data(0);
    assert_eq!(contract.set_name(&owner(), text("Grace Hopper")), Ok(()));
    assert_eq!(contract.get_name(), Ok(text("Grace Hopper")));
    assert_eq!(contract.log_version_data(0), once);
}

#[test]
fn set_name_keeps_the_map() {
    let mut contract = Contract::new(owner(), text("Ada"));
    assert_eq!(contract.add_to_map(&owner(), text("alice.near"), text("first")), Ok(()));
    assert_eq!(contract.set_name(&owner(), text("Grace")), Ok(()));
    assert_eq!(contract.get_map(), Ok(vec![(text("alice.near"), text("first"))]));
    assert_eq!(contract.get_name(), Ok(text("Grace")));
}

#[test]
fn setters_of_the_second_generation_keep_the_sibling_field() {
    let mut contract = three_generations();
    assert_eq!(contract.set_favorite_musician(&owner(), text("Bach")), Ok(()));
    assert_eq!(contract.get_favorite_color(), Ok(text("blue")));
    assert_eq!(contract.get_favorite_musician(), Ok(text("Bach")));
    assert_eq!(contract.set_favorite_color(&owner(), text("green")), Ok(()));
    assert_eq!(contract.get_favorite_color(), Ok(text("green")));
    assert_eq!(contract.get_favorite_musician(), Ok(text("Bach")));
}

#[test]
fn set_all_then_get_all() {
    let mut contract = three_generations();
    assert_eq!(
        contract.set_all(&owner(), text("Grace Hopper"), text("navy"), text("Bach")),
        Ok(())
    );
    let all = contract.get_all().unwrap();
    assert_eq!(all.name(), "Grace Hopper");
    assert_eq!(all.favorite_color(), "navy");
    assert_eq!(all.favorite_musician(), "Bach");
}

#[test]
fn set_all_writes_nothing_when_a_slot_is_missing() {
    let mut contract = Contract::new(owner(), text("Ada Lovelace"));
    assert_eq!(
        contract.set_all(&owner(), text("Grace Hopper"), text("navy"), text("Bach")),
        Err(StoreError::IndexOutOfRange)
    );
    assert_eq!(contract.get_name(), Ok(text("Ada Lovelace")));
}

#[test]
fn set_all_writes_nothing_when_a_slot_holds_another_generation() {
    let mut contract = Contract::new(owner(), text("Ada Lovelace"));
    assert_eq!(contract.add_v3_and_migrate(&owner()), Ok(()));
    assert_eq!(
        contract.set_all(&owner(), text("Grace Hopper"), text("navy"), text("Bach")),
        Err(StoreError::VersionMismatch)
    );
    assert_eq!(contract.get_name(), Ok(text("Ada Lovelace")));
}

#[test]
fn a_stranger_changes_nothing() {
    let mut contract = three_generations();
    assert_eq!(contract.add_to_map(&owner(), text("alice.near"), text("first")), Ok(()));
    let before: Vec<_> = (0..4).map(|i| contract.log_version_data(i)).collect();
    let unauthorized = Err(StoreError::Unauthorized);
    assert_eq!(contract.set_name(&stranger(), text("Mallory")), unauthorized);
    assert_eq!(contract.add_to_map(&stranger(), text("k"), text("v")), unauthorized);
    assert_eq!(contract.bloat_map(&stranger()), unauthorized);
    assert_eq!(contract.add_v2_with_color(&stranger(), text("red")), unauthorized);
    assert_eq!(contract.set_favorite_color(&stranger(), text("red")), unauthorized);
    assert_eq!(contract.set_favorite_musician(&stranger(), text("x")), unauthorized);
    assert_eq!(contract.set_all(&stranger(), text("a"), text("b"), text("c")), unauthorized);
    assert_eq!(contract.add_v3_and_migrate(&stranger()), unauthorized);
    assert_eq!(contract.remove_v1(&stranger()), unauthorized);
    let after: Vec<_> = (0..4).map(|i| contract.log_version_data(i)).collect();
    assert_eq!(before, after);
    assert_eq!(contract.get_current_version(), Ok(text("gen-3")));
    assert_eq!(contract.get_map_len(), Ok(1));
}

#[test]
fn a_stranger_is_refused_before_any_lookup() {
    let mut contract = Contract::new(owner(), text("Ada"));
    assert_eq!(
        contract.set_favorite_color(&stranger(), text("red")),
        Err(StoreError::Unauthorized)
    );
    assert_eq!(
        contract.set_favorite_color(&owner(), text("red")),
        Err(StoreError::IndexOutOfRange)
    );
}

#[test]
fn removal_puts_the_last_record_at_slot_zero() {
    let mut contract = three_generations();
    assert_eq!(contract.remove_v1(&owner()), Ok(()));
    assert_eq!(contract.versions().len(), 2);
    assert_eq!(contract.current_version_index(), 0);
    assert_eq!(contract.get_current_version(), Ok(text("gen-3")));
    assert_eq!(contract.get_favorite_color(), Ok(text("blue")));
}

#[test]
fn first_generation_accessors_fail_after_removal() {
    let mut contract = three_generations();
    assert_eq!(contract.remove_v1(&owner()), Ok(()));
    let mismatch = StoreError::VersionMismatch;
    assert_eq!(contract.get_name(), Err(mismatch));
    assert_eq!(contract.get_map(), Err(mismatch));
    assert_eq!(contract.get_map_len(), Err(mismatch));
    assert_eq!(contract.set_name(&owner(), text("Grace")), Err(mismatch));
    assert_eq!(contract.add_to_map(&owner(), text("k"), text("v")), Err(mismatch));
    assert_eq!(contract.bloat_map(&owner()), Err(mismatch));
    assert_eq!(contract.add_v3_and_migrate(&owner()), Err(mismatch));
    assert_eq!(contract.get_all().err(), Some(mismatch));
    assert_eq!(contract.set_all(&owner(), text("a"), text("b"), text("c")), Err(mismatch));
}

#[test]
fn removal_of_the_only_record_is_refused() {
    let mut contract = Contract::new(owner(), text("Ada"));
    assert_eq!(contract.remove_v1(&owner()), Err(StoreError::IndexOutOfRange));
    assert_eq!(contract.versions().len(), 1);
    assert_eq!(contract.current_version_index(), 0);
    assert_eq!(contract.get_current_version(), Ok(text("gen-1")));
    assert_eq!(contract.get_name(), Ok(text("Ada")));
}

#[test]
fn removal_stops_at_the_last_record() {
    let mut contract = three_generations();
    assert_eq!(contract.remove_v1(&owner()), Ok(()));
    assert_eq!(contract.get_current_version(), Ok(text("gen-3")));
    assert_eq!(contract.remove_v1(&owner()), Ok(()));
    assert_eq!(contract.versions().len(), 1);
    assert_eq!(contract.get_current_version(), Ok(text("gen-2")));
    assert_eq!(contract.remove_v1(&owner()), Err(StoreError::IndexOutOfRange));
    assert_eq!(contract.versions().len(), 1);
    assert_eq!(contract.get_current_version(), Ok(text("gen-2")));
    assert_eq!(contract.remove_v1(&stranger()), Err(StoreError::Unauthorized));
}

#[test]
fn removal_discards_the_map() {
    let mut contract = Contract::new(owner(), text("Ada"));
    assert_eq!(contract.add_to_map(&owner(), text("alice.near"), text("first")), Ok(()));
    assert_eq!(contract.add_v2_with_color(&owner(), text("blue")), Ok(()));
    assert_eq!(contract.remove_v1(&owner()), Ok(()));
    assert_eq!(
        contract.log_version_data(0),
        Ok(text(
            "State info for version at index 0: V2(Version2 { favorite_color: \"blue\", favorite_musician: \"\" })"
        ))
    );
    assert_eq!(contract.log_version_data(1), Err(StoreError::IndexOutOfRange));
}

#[test]
fn log_record_out_of_range_changes_nothing() {
    let contract = three_generations();
    assert_eq!(contract.log_version_data(3), Err(StoreError::IndexOutOfRange));
    assert_eq!(contract.log_version_data(u64::MAX), Err(StoreError::IndexOutOfRange));
    assert_eq!(contract.versions().len(), 3);
    assert_eq!(contract.get_current_version(), Ok(text("gen-3")));
}

#[test]
fn log_record_of_each_generation() {
    let mut contract = three_generations();
    assert_eq!(contract.add_to_map(&owner(), text("alice.near"), text("first")), Ok(()));
    assert_eq!(contract.add_to_map(&owner(), text("bob.near"), text("second")), Ok(()));
    assert_eq!(
        contract.log_version_data(0),
        Ok(text(
            "State info for version at index 0: V1(Version1 { name: \"Ada Lovelace\", map: [(\"alice.near\", \"first\"), (\"bob.near\", \"second\")] })"
        ))
    );
    assert_eq!(
        contract.log_version_data(1),
        Ok(text(
            "State info for version at index 1: V2(Version2 { favorite_color: \"blue\", favorite_musician: \"\" })"
        ))
    );
    assert_eq!(
        contract.log_version_data(2),
        Ok(text(
            "State info for version at index 2: V3(Version3 { account: Account { first_name: \"Ada\", last_name: \"Lovelace\", pronoun: \"\" } })"
        ))
    );
}

#[test]
fn log_record_of_an_empty_map() {
    let contract = Contract::new(owner(), text("Ada"));
    assert_eq!(
        contract.log_version_data(0),
        Ok(text("State info for version at index 0: V1(Version1 { name: \"Ada\", map: [] })"))
    );
}

#[test]
fn log_record_escapes_as_debug_does() {
    let contract = Contract::new(owner(), text("Ada \"the\" first\n"));
    assert_eq!(
        contract.log_version_data(0),
        Ok(format!(
            "State info for version at index 0: V1(Version1 {{ name: {:?}, map: [] }})",
            "Ada \"the\" first\n"
        ))
    );
    assert_eq!(
        contract.log_version_data(0),
        Ok(text(
            "State info for version at index 0: V1(Version1 { name: \"Ada \\\"the\\\" first\\n\", map: [] })"
        ))
    );
}

#[test]
fn map_upserts_keep_the_latest_value_per_key() {
    let mut contract = Contract::new(owner(), text("Ada"));
    assert_eq!(contract.add_to_map(&owner(), text("alice.near"), text("one")), Ok(()));
    assert_eq!(contract.add_to_map(&owner(), text("bob.near"), text("two")), Ok(()));
    assert_eq!(contract.add_to_map(&owner(), text("alice.near"), text("three")), Ok(()));
    assert_eq!(contract.get_map_len(), Ok(2));
    assert_eq!(
        contract.get_map(),
        Ok(vec![(text("alice.near"), text("three")), (text("bob.near"), text("two"))])
    );
}

#[test]
fn bloat_map_from_empty_adds_190_entries_per_call() {
    let mut contract = Contract::new(owner(), text("Ada"));
    assert_eq!(contract.bloat_map(&owner()), Ok(()));
    assert_eq!(contract.get_map_len(), Ok(190));
    assert_eq!(contract.bloat_map(&owner()), Ok(()));
    assert_eq!(contract.get_map_len(), Ok(380));
    let pairs = contract.get_map().unwrap();
    let mut keys: Vec<&String> = pairs.iter().map(|p| &p.0).collect();
    keys.sort();
    keys.dedup();
    assert_eq!(keys.len(), 380);
}

#[test]
fn restore_takes_the_parts_of_a_contract() {
    let contract = three_generations();
    let mut parts = versioned_store::version_store::VersionStore::new();
    parts.append(versioned_store::schema::Version::V2(versioned_store::schema::Version2 {
        favorite_color: text("blue"),
        favorite_musician: text("Bach"),
    }));
    let restored = Contract::restore(contract.owner().clone(), parts, 0).unwrap();
    assert_eq!(restored.get_current_version(), Ok(text("gen-2")));
    assert_eq!(restored.get_name(), Err(StoreError::VersionMismatch));
}

#[test]
fn restore_refuses_a_pointer_beyond_the_store() {
    let mut parts = versioned_store::version_store::VersionStore::new();
    parts.append(versioned_store::schema::Version::V2(versioned_store::schema::Version2 {
        favorite_color: text("blue"),
        favorite_musician: text("Bach"),
    }));
    assert!(Contract::restore(owner(), parts, 1).is_none());
}

#[test]
fn restore_refuses_an_empty_store() {
    let empty = versioned_store::version_store::VersionStore::new();
    assert!(Contract::restore(owner(), empty, 0).is_none());
    let empty = versioned_store::version_store::VersionStore::new();
    assert!(Contract::restore(owner(), empty, 1).is_none());
}

#[test]
fn restore_refuses_a_first_generation_behind_slot_zero() {
    let mut parts = versioned_store::version_store::VersionStore::new();
    parts.append(versioned_store::schema::Version::V2(versioned_store::schema::Version2 {
        favorite_color: text("blue"),
        favorite_musician: text("Bach"),
    }));
    parts.append(versioned_store::schema::Version::V1(versioned_store::schema::Version1 {
        name: text("Ada"),
        map: versioned_store::aux_map::AuxMap::new(),
    }));
    assert!(Contract::restore(owner(), parts, 0).is_none());
}
