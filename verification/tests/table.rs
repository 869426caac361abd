use product_catalog::models::{NewProduct, Price, Product};
use product_catalog::table::{ProductTable, StoreError};

fn payload(name: &str, value: f64) -> NewProduct {
    NewProduct::new(name, "about it", Price::from_bits(value.to_bits()), "https://example.org/p.png")
}

fn ids(products: &Vec<Product>) -> Vec<i32> {
    products.iter().map(|p| p.id).collect()
}

#[test]
fn new_table_is_empty() {
    let table = ProductTable::new();
    assert_eq!(table.count(), 0);
    assert_eq!(table.last_issued(), 0);
    assert!(table.load().is_empty());
}

#[test]
fn insert_numbers_rows_from_one() {
    let mut table = ProductTable::new();
    let first = table.insert(payload("first", 1.0)).unwrap();
    let second = table.insert(payload("second", 2.0)).unwrap();
    assert_eq!(first.id, 1);
    assert_eq!(second.id, 2);
    assert_eq!(first.payload(), payload("first", 1.0));
    assert_eq!(second.payload(), payload("second", 2.0));
    assert_eq!(table.count(), 2);
    assert_eq!(table.last_issued(), 2);
    assert_eq!(table.load(), vec![first, second]);
}

#[test]
fn insert_all_numbers_the_batch_in_order() {
    let mut table = ProductTable::new();
    table.insert(payload("zero", 0.5)).unwrap();
    let batch = vec![payload("a", 1.0), payload("b", 2.0), payload("c", 3.0)];
    assert_eq!(table.insert_all(&batch), Ok(3));
    let rows = table.load();
    assert_eq!(ids(&rows), vec![1, 2, 3, 4]);
    assert_eq!(rows[1].payload(), batch[0]);
    assert_eq!(rows[2].payload(), batch[1]);
    assert_eq!(rows[3].payload(), batch[2]);
    assert_eq!(table.last_issued(), 4);
}

#[test]
fn insert_all_of_nothing_changes_nothing() {
    let mut table = ProductTable::new();
    table.insert(payload("only", 1.0)).unwrap();
    assert_eq!(table.insert_all(&Vec::new()), Ok(0));
    assert_eq!(table.count(), 1);
    assert_eq!(table.last_issued(), 1);
}

#[test]
fn insert_all_equals_inserting_each() {
    let batch = vec![payload("a", 1.0), payload("b", 2.0), payload("c", 3.0)];
    let mut at_once = ProductTable::new();
    at_once.insert_all(&batch).unwrap();
    let mut one_by_one = ProductTable::new();
    for p in &batch {
        one_by_one.insert(p.clone()).unwrap();
    }
    assert_eq!(at_once.load(), one_by_one.load());
    assert_eq!(at_once.last_issued(), one_by_one.last_issued());
}

#[test]
fn delete_by_id_counts_removed_rows() {
    let mut table = ProductTable::new();
    table.insert_all(&vec![payload("a", 1.0), payload("b", 2.0), payload("c", 3.0)]).unwrap();
    assert_eq!(table.delete_by_id(2), 1);
    assert_eq!(ids(&table.load()), vec![1, 3]);
    assert_eq!(table.delete_by_id(2), 0);
    assert_eq!(table.delete_by_id(0), 0);
    assert_eq!(table.delete_by_id(-1), 0);
    assert_eq!(table.delete_by_id(i32::MAX), 0);
    assert_eq!(ids(&table.load()), vec![1, 3]);
    assert_eq!(table.count(), 2);
}

#[test]
fn deleted_identifier_is_not_handed_out_again() {
    let mut table = ProductTable::new();
    table.insert(payload("a", 1.0)).unwrap();
    table.insert(payload("b", 2.0)).unwrap();
    assert_eq!(table.delete_by_id(2), 1);
    assert_eq!(table.last_issued(), 2);
    let next = table.insert(payload("c", 3.0)).unwrap();
    assert_eq!(next.id, 3);
    assert_eq!(ids(&table.load()), vec![1, 3]);
}

#[test]
fn delete_first_and_last_rows() {
    let mut table = ProductTable::new();
    table.insert_all(&vec![payload("a", 1.0), payload("b", 2.0), payload("c", 3.0)]).unwrap();
    assert_eq!(table.delete_by_id(1), 1);
    assert_eq!(ids(&table.load()), vec![2, 3]);
    assert_eq!(table.delete_by_id(3), 1);
    assert_eq!(ids(&table.load()), vec![2]);
    assert_eq!(table.delete_by_id(2), 1);
    assert!(table.load().is_empty());
    assert_eq!(table.count(), 0);
    assert_eq!(table.last_issued(), 3);
}

#[test]
fn with_issued_resumes_the_sequence() {
    let mut table = ProductTable::with_issued(40).unwrap();
    assert_eq!(table.count(), 0);
    assert_eq!(table.last_issued(), 40);
    assert_eq!(table.insert(payload("a", 1.0)).unwrap().id, 41);
    assert!(ProductTable::with_issued(0).is_some());
    assert!(ProductTable::with_issued(i32::MAX).is_some());
}

#[test]
fn with_issued_refuses_negative_values() {
    assert!(ProductTable::with_issued(-1).is_none());
    assert!(ProductTable::with_issued(i32::MIN).is_none());
}

#[test]
fn insert_fails_when_identifiers_are_exhausted() {
    let mut table = ProductTable::with_issued(i32::MAX - 1).unwrap();
    let last = table.insert(payload("last", 1.0)).unwrap();
    assert_eq!(last.id, i32::MAX);
    assert_eq!(table.insert(payload("one more", 1.0)), Err(StoreError::IdentifiersExhausted));
    assert_eq!(table.load(), vec![last]);
    assert_eq!(table.last_issued(), i32::MAX);
}

#[test]
fn insert_all_stores_all_or_nothing() {
    let mut table = ProductTable::with_issued(i32::MAX - 2).unwrap();
    let three = vec![payload("a", 1.0), payload("b", 2.0), payload("c", 3.0)];
    assert_eq!(table.insert_all(&three), Err(StoreError::IdentifiersExhausted));
    assert_eq!(table.count(), 0);
    assert_eq!(table.last_issued(), i32::MAX - 2);
    let two = vec![payload("a", 1.0), payload("b", 2.0)];
    assert_eq!(table.insert_all(&two), Ok(2));
    assert_eq!(ids(&table.load()), vec![i32::MAX - 1, i32::MAX]);
    assert_eq!(table.insert_all(&Vec::new()), Ok(0));
}

#[test]
fn store_error_message() {
    assert_eq!(
        StoreError::IdentifiersExhausted.message(),
        "no identifier is left for a new product"
    );
}

#[test]
fn load_returns_copies() {
    let mut table = ProductTable::new();
    table.insert(payload("a", 1.0)).unwrap();
    let mut rows = table.load();
    rows[0].name = "changed".to_string();
    rows.clear();
    assert_eq!(table.load()[0].name, "a");
    assert_eq!(table.count(), 1);
}
