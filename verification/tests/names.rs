use separable::names::collection_name;

#[test]
fn first_collection_is_collection_0() {
    assert_eq!(collection_name(0), "collection_0");
}

#[test]
fn one_digit_indices() {
    assert_eq!(collection_name(7), "collection_7");
    assert_eq!(collection_name(9), "collection_9");
}

#[test]
fn several_digits_come_most_significant_first() {
    assert_eq!(collection_name(10), "collection_10");
    assert_eq!(collection_name(12), "collection_12");
    assert_eq!(collection_name(100), "collection_100");
    assert_eq!(collection_name(120_034), "collection_120034");
}

#[test]
fn largest_index() {
    assert_eq!(collection_name(usize::MAX), format!("collection_{}", usize::MAX));
}

#[test]
fn different_indices_give_different_names() {
    let names: Vec<String> = (0..120).map(collection_name).collect();
    for (i, name) in names.iter().enumerate() {
        for other in &names[i + 1..] {
            assert_ne!(name, other);
        }
    }
    assert_ne!(collection_name(1), collection_name(10));
    assert_ne!(collection_name(10), collection_name(100));
}

#[test]
fn names_are_identifiers() {
    for index in [0, 5, 10, 99, 1000, usize::MAX] {
        let name = collection_name(index);
        assert!(name.chars().all(|c| c.is_ascii_alphanumeric() || c == '_'));
        assert_eq!(proc_macro2::Ident::new(&name, proc_macro2::Span::call_site()).to_string(), name);
    }
}
