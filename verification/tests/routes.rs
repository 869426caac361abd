use product_catalog::models::{NewProduct, Price, Product};
use product_catalog::routes::{
    add_product, delete_product, deleted_any, get_products, routes, Endpoint, Method, Route,
};
use product_catalog::server::{
    allowed_methods, cors_policy, ALLOWED_ORIGIN, BIND_ADDRESS, DATABASE_URL_VARIABLE,
};
use product_catalog::table::{ProductTable, StoreError};

fn payload(name: &str, value: f64) -> NewProduct {
    NewProduct::new(name, "about it", Price::from_bits(value.to_bits()), "https://example.org/p.png")
}

fn ids(products: &Vec<Product>) -> Vec<i32> {
    products.iter().map(|p| p.id).collect()
}

#[test]
fn created_product_is_listed_with_a_new_identifier() {
    let mut table = ProductTable::new();
    add_product(&mut table, payload("old", 1.0)).unwrap();
    add_product(&mut table, payload("older", 2.0)).unwrap();
    let before = get_products(&table);
    let sent = NewProduct::new("Kettle", "Boils water", Price::from_bits(34.5f64.to_bits()), "https://example.org/k.png");
    let created = add_product(&mut table, sent.clone()).unwrap();
    assert_eq!(created.payload(), sent);
    assert_eq!(created.id, 3);
    assert!(before.iter().all(|p| p.id != created.id));
    let listed = get_products(&table);
    assert_eq!(listed.iter().filter(|p| p.id == created.id).count(), 1);
    assert!(listed.contains(&created));
    assert_eq!(listed[..2], before[..]);
    assert_eq!(listed.len(), 3);
}

#[test]
fn delete_of_unassigned_identifier_returns_false() {
    let mut table = ProductTable::new();
    add_product(&mut table, payload("a", 1.0)).unwrap();
    add_product(&mut table, payload("b", 2.0)).unwrap();
    let before = get_products(&table);
    for id in [3, 4, 1000, i32::MAX, 0, -1, i32::MIN] {
        assert!(!delete_product(&mut table, id), "identifier {}", id);
        assert_eq!(get_products(&table), before);
        assert_eq!(table.last_issued(), 2);
    }
}

#[test]
fn delete_of_existing_identifier_removes_exactly_it() {
    let mut table = ProductTable::new();
    let a = add_product(&mut table, payload("a", 1.0)).unwrap();
    let b = add_product(&mut table, payload("b", 2.0)).unwrap();
    let c = add_product(&mut table, payload("c", 3.0)).unwrap();
    assert!(delete_product(&mut table, b.id));
    let listed = get_products(&table);
    assert_eq!(listed, vec![a, c]);
    assert!(listed.iter().all(|p| p.id != b.id));
}

#[test]
fn delete_twice_returns_true_then_false() {
    let mut table = ProductTable::new();
    let a = add_product(&mut table, payload("a", 1.0)).unwrap();
    assert!(delete_product(&mut table, a.id));
    assert!(!delete_product(&mut table, a.id));
    assert!(get_products(&table).is_empty());
}

#[test]
fn create_takes_negative_price_and_empty_name() {
    let mut table = ProductTable::new();
    let odd = NewProduct::new("", "", Price::from_bits((-12.5f64).to_bits()), "not a url");
    let created = add_product(&mut table, odd.clone()).unwrap();
    assert_eq!(created.id, 1);
    assert_eq!(created.name, "");
    assert!(created.price.is_negative());
    assert_eq!(f64::from_bits(created.price.to_bits()), -12.5);
    assert_eq!(created.payload(), odd);
    let nan = NewProduct::new("nan", "", Price::from_bits(f64::NAN.to_bits()), "");
    let created = add_product(&mut table, nan.clone()).unwrap();
    assert_eq!(created.payload(), nan);
    assert_eq!(get_products(&table).len(), 2);
}

#[test]
fn creates_in_any_order_get_distinct_identifiers() {
    let payloads: Vec<NewProduct> = (0..50).map(|k| payload(&format!("p{}", k), k as f64)).collect();
    let mut forward = ProductTable::new();
    let mut backward = ProductTable::new();
    let mut seen_forward = Vec::new();
    let mut seen_backward = Vec::new();
    for p in payloads.iter() {
        seen_forward.push(add_product(&mut forward, p.clone()).unwrap().id);
    }
    for p in payloads.iter().rev() {
        seen_backward.push(add_product(&mut backward, p.clone()).unwrap().id);
    }
    for seen in [seen_forward, seen_backward] {
        let mut sorted = seen.clone();
        sorted.sort();
        sorted.dedup();
        assert_eq!(sorted.len(), 50);
        assert_eq!(seen, (1..=50).collect::<Vec<i32>>());
    }
}

#[test]
fn identifiers_stay_distinct_across_deletions() {
    let mut table = ProductTable::new();
    let mut handed_out = Vec::new();
    for round in 0..20 {
        let created = add_product(&mut table, payload("p", round as f64)).unwrap();
        assert!(!handed_out.contains(&created.id));
        handed_out.push(created.id);
        if round % 3 == 0 {
            assert!(delete_product(&mut table, created.id));
        }
    }
    let listed = ids(&get_products(&table));
    let mut unique = listed.clone();
    unique.sort();
    unique.dedup();
    assert_eq!(unique.len(), listed.len());
    assert_eq!(listed.len(), 13);
}

#[test]
fn add_product_reports_exhausted_identifiers() {
    let mut table = ProductTable::with_issued(i32::MAX).unwrap();
    assert_eq!(add_product(&mut table, payload("a", 1.0)), Err(StoreError::IdentifiersExhausted));
    assert!(get_products(&table).is_empty());
    assert!(!delete_product(&mut table, i32::MAX));
}

#[test]
fn deleted_any_is_true_above_zero() {
    assert!(!deleted_any(0));
    assert!(deleted_any(1));
    assert!(deleted_any(2));
    assert!(deleted_any(usize::MAX));
}

#[test]
fn route_table_has_three_routes() {
    let table = routes();
    assert_eq!(table.len(), 3);
    assert_eq!(table[0].endpoint, Endpoint::ListProducts);
    assert_eq!(table[0].method, Method::Get);
    assert_eq!(table[0].path, "/api/products");
    assert_eq!(table[1].endpoint, Endpoint::CreateProduct);
    assert_eq!(table[1].method, Method::Post);
    assert_eq!(table[1].path, "/api/products");
    assert_eq!(table[2].endpoint, Endpoint::DeleteProduct);
    assert_eq!(table[2].method, Method::Delete);
    assert_eq!(table[2].path, "/api/products/:id");
}

#[test]
fn route_of_endpoint_uses_its_method_and_path() {
    for endpoint in [Endpoint::ListProducts, Endpoint::CreateProduct, Endpoint::DeleteProduct] {
        let route: Route = Route::of(endpoint);
        assert_eq!(route.endpoint, endpoint);
        assert_eq!(route.method, endpoint.method());
        assert_eq!(route.path, endpoint.path());
    }
}

#[test]
fn server_settings() {
    assert_eq!(BIND_ADDRESS, "0.0.0.0:8080");
    assert_eq!(ALLOWED_ORIGIN, "http://localhost:4200");
    assert_eq!(DATABASE_URL_VARIABLE, "DATABASE_URL");
    assert_eq!(
        allowed_methods(),
        vec![Method::Get, Method::Post, Method::Delete, Method::Options]
    );
}

#[test]
fn every_route_method_is_allowed() {
    let allowed = allowed_methods();
    for route in routes() {
        assert!(allowed.contains(&route.method));
    }
}

#[test]
fn cors_policy_of_the_service() {
    let policy = cors_policy();
    assert_eq!(policy.origin, "http://localhost:4200");
    assert_eq!(
        policy.methods,
        vec![Method::Get, Method::Post, Method::Delete, Method::Options]
    );
    assert!(policy.any_header);
}
