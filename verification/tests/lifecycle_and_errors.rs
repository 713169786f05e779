use versioned_store::error::StoreError;
use versioned_store::lifecycle::Instance;
use versioned_store::render::{
    compose_entries, compose_log_line, compose_v1, compose_v2, compose_v3,
};
use versioned_store::schema::{Account, AllValues, Version, Version1, Version2, Version3};

#[test]
fn an_instance_is_constructed_once() {
    let mut instance = Instance::Uninitialized;
    assert_eq!(instance.construct("owner.near".to_string(), "Ada Lovelace".to_string()), Ok(()));
    assert_eq!(
        instance.construct("owner.near".to_string(), "Grace Hopper".to_string()),
        Err(StoreError::AlreadyInitialized)
    );
    let contract = instance.contract().unwrap();
    assert_eq!(contract.get_name(), Ok("Ada Lovelace".to_string()));
    assert_eq!(contract.get_current_version(), Ok("gen-1".to_string()));
}

#[test]
fn an_instance_is_of_no_use_before_construction() {
    let mut instance = Instance::Uninitialized;
    assert_eq!(instance.contract().err(), Some(StoreError::Uninitialized));
    assert_eq!(instance.contract_mut().err(), Some(StoreError::Uninitialized));
}

#[test]
fn changes_through_an_instance_stay() {
    let mut instance = Instance::Uninitialized;
    assert_eq!(instance.construct("owner.near".to_string(), "Ada".to_string()), Ok(()));
    let owner = "owner.near".to_string();
    assert_eq!(instance.contract_mut().unwrap().set_name(&owner, "Grace".to_string()), Ok(()));
    assert_eq!(instance.contract().unwrap().get_name(), Ok("Grace".to_string()));
}

#[test]
fn every_error_has_its_message() {
    assert_eq!(StoreError::AlreadyInitialized.message(), "Already initialized");
    assert_eq!(
        StoreError::Uninitialized.message(),
        "Contract must be initialized before usage with 'new' function call."
    );
    assert_eq!(
        StoreError::Unauthorized.message(),
        "Only contract owner can sign transactions for this method."
    );
    assert_eq!(StoreError::IndexOutOfRange.message(), "Invalid index, buddy.");
    assert_eq!(StoreError::VersionMismatch.message(), "Error retrieving version.");
}

#[test]
fn every_generation_has_its_label() {
    let v1 = Version::V1(Version1 {
        name: "Ada".to_string(),
        map: versioned_store::aux_map::AuxMap::new(),
    });
    let v2 = Version::V2(Version2 {
        favorite_color: "blue".to_string(),
        favorite_musician: String::new(),
    });
    let v3 = Version::V3(Version3 {
        account: Account::new("Ada".to_string(), "Lovelace".to_string(), String::new()),
    });
    assert_eq!(v1.get_version(), "gen-1");
    assert_eq!(v2.get_version(), "gen-2");
    assert_eq!(v3.get_version(), "gen-3");
}

#[test]
fn records_are_written_out_field_by_field() {
    let v3 = Version::V3(Version3 {
        account: Account::new("Ada".to_string(), "Lovelace".to_string(), "she".to_string()),
    });
    assert_eq!(
        v3.debug_text(),
        "V3(Version3 { account: Account { first_name: \"Ada\", last_name: \"Lovelace\", pronoun: \"she\" } })"
    );
}

#[test]
fn composed_texts_take_their_parts_as_given() {
    let pairs = vec![("k1".to_string(), "v1".to_string()), ("k2".to_string(), "v2".to_string())];
    assert_eq!(compose_entries(&vec![]), "[]");
    assert_eq!(compose_entries(&pairs[..1].to_vec()), "[(k1, v1)]");
    assert_eq!(compose_entries(&pairs), "[(k1, v1), (k2, v2)]");
    assert_eq!(
        compose_v1(&"N".to_string(), &pairs),
        "V1(Version1 { name: N, map: [(k1, v1), (k2, v2)] })"
    );
    assert_eq!(
        compose_v2(&"C".to_string(), &"M".to_string()),
        "V2(Version2 { favorite_color: C, favorite_musician: M })"
    );
    assert_eq!(
        compose_v3(&"F".to_string(), &"L".to_string(), &"P".to_string()),
        "V3(Version3 { account: Account { first_name: F, last_name: L, pronoun: P } })"
    );
    assert_eq!(
        compose_log_line(12, &"R".to_string()),
        "State info for version at index 12: R"
    );
}

#[test]
fn copies_keep_the_fields() {
    let account = Account::new("Ada".to_string(), "Lovelace".to_string(), "she".to_string());
    let copy = account.clone();
    assert_eq!(copy.first_name(), "Ada");
    assert_eq!(copy.last_name(), "Lovelace");
    assert_eq!(copy.pronoun(), "she");
    let all = AllValues::new("n".to_string(), "c".to_string(), "m".to_string());
    assert_eq!((all.name().as_str(), all.favorite_color().as_str()), ("n", "c"));
    assert_eq!(all.favorite_musician(), "m");
    let v2 = Version2 { favorite_color: "c".to_string(), favorite_musician: "m".to_string() };
    let copy = v2.clone();
    assert_eq!((copy.favorite_color, copy.favorite_musician), ("c".to_string(), "m".to_string()));
}
