use sg_cli::configuration::{Attribute, Metadata};
use sg_cli::store::{Store, StoreFault};
use sg_cli::transform::Selection;

fn stored(edition: u32, frozen: bool) -> Metadata {
    Metadata {
        edition,
        name: format!("Soul #{}", edition),
        description: "A soul".to_string(),
        image: format!("https://cdn.example.com/art/1/{}.jpg", edition),
        dna: "abc".to_string(),
        stage: 1,
        frozen,
        seller_fee_basis_points: 500,
        fee_recipient: "0xfee".to_string(),
        attributes: vec![Attribute { trait_type: "Eyes".to_string(), value: "Blue".to_string() }],
    }
}

#[test]
fn new_store_is_empty_at_stage_zero() {
    let store = Store::new();
    assert_eq!(store.len(), 0);
    assert_eq!(store.current_stage(), 0);
    assert!(store.fetch_all().is_empty());
}

#[test]
fn insert_appends_and_returns_the_edition() {
    let mut store = Store::new();
    assert_eq!(store.insert(stored(3, false)), Ok(3));
    assert_eq!(store.insert(stored(1, true)), Ok(1));
    assert_eq!(store.len(), 2);
    assert_eq!(store.fetch_all(), vec![stored(3, false), stored(1, true)]);
}

#[test]
fn insert_refuses_a_taken_edition() {
    let mut store = Store::new();
    store.insert(stored(3, false)).unwrap();
    assert_eq!(store.insert(stored(3, true)), Err(StoreFault::DuplicateEdition { edition: 3 }));
    assert_eq!(store.fetch_all(), vec![stored(3, false)]);
}

#[test]
fn update_replaces_the_record_of_the_edition() {
    let mut store = Store::new();
    store.insert(stored(1, false)).unwrap();
    store.insert(stored(2, false)).unwrap();
    let mut changed = stored(2, false);
    changed.stage = 4;
    assert_eq!(store.update_record(changed.clone()), Ok(2));
    assert_eq!(store.fetch_all(), vec![stored(1, false), changed]);
}

#[test]
fn update_of_a_missing_edition_fails() {
    let mut store = Store::new();
    store.insert(stored(1, false)).unwrap();
    assert_eq!(
        store.update_record(stored(9, false)),
        Err(StoreFault::RecordNotFound { edition: 9 })
    );
    assert_eq!(store.fetch_all(), vec![stored(1, false)]);
}

#[test]
fn fetch_where_selects_in_order() {
    let mut store = Store::new();
    store.insert(stored(5, false)).unwrap();
    store.insert(stored(2, true)).unwrap();
    store.insert(stored(9, false)).unwrap();
    store.insert(stored(1, true)).unwrap();
    assert_eq!(store.fetch_where(Selection::All).len(), 4);
    assert_eq!(store.fetch_where(Selection::NotFrozen), vec![stored(5, false), stored(9, false)]);
    assert_eq!(store.fetch_where(Selection::Frozen), vec![stored(2, true), stored(1, true)]);
}

#[test]
fn get_and_contains_find_by_edition() {
    let mut store = Store::new();
    store.insert(stored(5, false)).unwrap();
    assert!(store.contains(5));
    assert!(!store.contains(6));
    assert_eq!(store.get(5), Some(stored(5, false)));
    assert_eq!(store.get(6), None);
}

#[test]
fn current_stage_is_set() {
    let mut store = Store::new();
    store.insert(stored(5, false)).unwrap();
    assert_eq!(store.set_current_stage(4), 4);
    assert_eq!(store.current_stage(), 4);
    assert_eq!(store.fetch_all(), vec![stored(5, false)]);
}

#[test]
fn clone_of_a_record_is_equal() {
    let record = stored(5, true);
    assert_eq!(record.clone(), record);
}
