use erika_catalogue::state::{get_catalogue_hash, set_catalogue_hash, CatalogueHash};

#[test]
fn an_unset_store_has_no_hash() {
    let store = CatalogueHash::new();
    assert_eq!(get_catalogue_hash(&store), None);
}

#[test]
fn the_first_hash_is_kept() {
    let mut store = CatalogueHash::new();
    assert_eq!(set_catalogue_hash(&mut store, String::from("abc123")), Ok(()));
    assert_eq!(get_catalogue_hash(&store), Some("abc123"));
    assert_eq!(
        set_catalogue_hash(&mut store, String::from("ffff")),
        Err(String::from("Catalogue hash already set"))
    );
    assert_eq!(get_catalogue_hash(&store), Some("abc123"));
}

#[test]
fn setting_the_same_hash_twice_succeeds_and_changes_nothing() {
    let mut store = CatalogueHash::new();
    assert_eq!(set_catalogue_hash(&mut store, String::from("abc123")), Ok(()));
    assert_eq!(set_catalogue_hash(&mut store, String::from("abc123")), Ok(()));
    assert_eq!(get_catalogue_hash(&store), Some("abc123"));
    assert_eq!(set_catalogue_hash(&mut store, String::from("abc123")), Ok(()));
    assert_eq!(get_catalogue_hash(&store), Some("abc123"));
}

#[test]
fn another_hash_is_refused_also_after_a_repeated_set() {
    let mut store = CatalogueHash::new();
    assert!(set_catalogue_hash(&mut store, String::from("first")).is_ok());
    assert!(set_catalogue_hash(&mut store, String::from("first")).is_ok());
    assert_eq!(
        set_catalogue_hash(&mut store, String::from("second")),
        Err(String::from("Catalogue hash already set"))
    );
    assert_eq!(set_catalogue_hash(&mut store, String::from("First")).is_err(), true);
    assert_eq!(get_catalogue_hash(&store), Some("first"));
    assert!(set_catalogue_hash(&mut store, String::from("first")).is_ok());
}

#[test]
fn two_stores_are_independent() {
    let mut one = CatalogueHash::new();
    let mut two = CatalogueHash::new();
    assert!(set_catalogue_hash(&mut one, String::from("1")).is_ok());
    assert!(set_catalogue_hash(&mut two, String::from("2")).is_ok());
    assert_eq!(get_catalogue_hash(&one), Some("1"));
    assert_eq!(get_catalogue_hash(&two), Some("2"));
}
