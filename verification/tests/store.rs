use stock_management::{issue_id, Product, StockManagement, FIRST_ID};

#[test]
fn test_add_product() {
    let mut contract = StockManagement::new();
    let product_id = contract.add_product("arroz".to_string(), 20);

    let product = contract.get_product(product_id);
    assert_eq!(product.clone().unwrap().name, "arroz");
    assert_eq!(product.unwrap().quantity, 20);
}

#[test]
fn test_update_quantity() {
    let mut contract = StockManagement::new();
    let product_id = contract.add_product("arroz".to_string(), 20);

    contract.update_quantity(product_id, 30);
    let product = contract.get_product(product_id);
    assert_eq!(product.unwrap().quantity, 30);
}

#[test]
fn first_registration_returns_one() {
    let mut store = StockManagement::new();
    let id = store.add_product("arroz".to_string(), 20);
    assert_eq!(id, 1);
    assert_eq!(id, FIRST_ID);
    let found = store.get_product(1).unwrap();
    assert_eq!(found.name, "arroz");
    assert_eq!(found.quantity, 20);
}

#[test]
fn update_rewrites_quantity_and_keeps_name() {
    let mut store = StockManagement::new();
    assert_eq!(store.add_product("arroz".to_string(), 20), 1);
    assert!(store.update_quantity(1, 30));
    let found = store.get_product(1).unwrap();
    assert_eq!(found.name, "arroz");
    assert_eq!(found.quantity, 30);
}

#[test]
fn update_on_fresh_store_returns_false() {
    let mut store = StockManagement::new();
    assert!(!store.update_quantity(999, 5));
    assert!(store.get_product(999).is_none());
    assert_eq!(store.add_product("a".to_string(), 1), 1);
}

#[test]
fn two_registrations_coexist() {
    let mut store = StockManagement::new();
    assert_eq!(store.add_product("a".to_string(), 1), 1);
    assert_eq!(store.add_product("b".to_string(), 2), 2);
    let a = store.get_product(1).unwrap();
    let b = store.get_product(2).unwrap();
    assert_eq!((a.name.as_str(), a.quantity), ("a", 1));
    assert_eq!((b.name.as_str(), b.quantity), ("b", 2));
    assert!(store.update_quantity(2, -7));
    let a = store.get_product(1).unwrap();
    let b = store.get_product(2).unwrap();
    assert_eq!((a.name.as_str(), a.quantity), ("a", 1));
    assert_eq!((b.name.as_str(), b.quantity), ("b", -7));
}

#[test]
fn identifiers_are_distinct_and_increasing() {
    let mut store = StockManagement::new();
    let mut issued: Vec<u32> = Vec::new();
    for n in 0..50 {
        issued.push(store.add_product(format!("item{}", n), n));
        assert!(!store.update_quantity(0, 1));
    }
    let expected: Vec<u32> = (1..=50).collect();
    assert_eq!(issued, expected);
    for pair in issued.windows(2) {
        assert!(pair[0] < pair[1]);
    }
}

#[test]
fn registered_record_is_read_back() {
    let cases: Vec<(&str, i32)> = vec![
        ("", 0),
        ("feijao", i32::MAX),
        ("farinha", i32::MIN),
        ("a name with spaces", -1),
    ];
    let mut store = StockManagement::new();
    for (name, quantity) in cases {
        let id = store.add_product(name.to_string(), quantity);
        let found = store.get_product(id).unwrap();
        assert_eq!(found.name, name);
        assert_eq!(found.quantity, quantity);
    }
}

#[test]
fn same_name_may_be_registered_twice() {
    let mut store = StockManagement::new();
    let first = store.add_product("arroz".to_string(), 1);
    let second = store.add_product("arroz".to_string(), 2);
    assert_ne!(first, second);
    assert_eq!(store.get_product(first).unwrap().quantity, 1);
    assert_eq!(store.get_product(second).unwrap().quantity, 2);
}

#[test]
fn update_of_unknown_identifier_changes_nothing() {
    let mut store = StockManagement::new();
    store.add_product("a".to_string(), 1);
    store.add_product("b".to_string(), 2);
    for unknown in [0u32, 3, 4, 999, u32::MAX] {
        assert!(!store.update_quantity(unknown, 77));
        assert!(store.get_product(unknown).is_none());
        let a = store.get_product(1).unwrap();
        let b = store.get_product(2).unwrap();
        assert_eq!((a.name.as_str(), a.quantity), ("a", 1));
        assert_eq!((b.name.as_str(), b.quantity), ("b", 2));
    }
    assert_eq!(store.add_product("c".to_string(), 3), 3);
}

#[test]
fn unknown_identifier_reads_empty() {
    let fresh = StockManagement::new();
    for id in [0u32, 1, 2, 999, u32::MAX] {
        assert!(fresh.get_product(id).is_none());
    }
    let mut store = StockManagement::new();
    store.add_product("a".to_string(), 1);
    assert!(store.get_product(0).is_none());
    assert!(store.get_product(2).is_none());
    assert!(store.get_product(u32::MAX).is_none());
}

#[test]
fn repeated_update_is_idempotent() {
    let mut once = StockManagement::new();
    let mut twice = StockManagement::new();
    once.add_product("a".to_string(), 1);
    twice.add_product("a".to_string(), 1);
    assert!(once.update_quantity(1, 9));
    assert!(twice.update_quantity(1, 9));
    assert!(twice.update_quantity(1, 9));
    let a = once.get_product(1).unwrap();
    let b = twice.get_product(1).unwrap();
    assert_eq!((a.name, a.quantity), (b.name, b.quantity));
    assert_eq!(once.add_product("n".to_string(), 0), twice.add_product("n".to_string(), 0));
}

#[test]
fn read_does_not_change_the_store() {
    let mut store = StockManagement::new();
    store.add_product("a".to_string(), 1);
    let first = store.get_product(1).unwrap();
    let mut copy = store.get_product(1).unwrap();
    copy.quantity = 100;
    copy.name.push('x');
    let again = store.get_product(1).unwrap();
    assert_eq!((first.name, first.quantity), (again.name, again.quantity));
}

#[test]
fn fresh_store_is_not_exhausted() {
    let mut store = StockManagement::new();
    assert!(!store.is_exhausted());
    store.add_product("a".to_string(), 1);
    assert!(!store.is_exhausted());
}

#[test]
fn issue_id_counts_up_by_one() {
    let mut counter: u32 = FIRST_ID;
    assert_eq!(issue_id(&mut counter), 1);
    assert_eq!(counter, 2);
    assert_eq!(issue_id(&mut counter), 2);
    assert_eq!(counter, 3);
    let mut last: u32 = u32::MAX - 1;
    assert_eq!(issue_id(&mut last), u32::MAX - 1);
    assert_eq!(last, u32::MAX);
}

#[test]
fn with_quantity_keeps_the_name() {
    let product = Product { name: "arroz".to_string(), quantity: 20 };
    let updated = product.with_quantity(-3);
    assert_eq!(updated.name, "arroz");
    assert_eq!(updated.quantity, -3);
}

#[test]
fn product_clone_and_default() {
    let product = Product { name: "arroz".to_string(), quantity: 20 };
    let copy = product.clone();
    assert_eq!(copy.name, product.name);
    assert_eq!(copy.quantity, product.quantity);
    let empty = Product::default();
    assert_eq!(empty.name, "");
    assert_eq!(empty.quantity, 0);
    assert!(format!("{:?}", product).contains("arroz"));
}
