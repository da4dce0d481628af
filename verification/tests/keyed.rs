use codictate::keyed::KeyedValues;

#[test]
fn keyed_values_read_back_what_was_set() {
    let mut values: KeyedValues<u64> = KeyedValues::new();
    assert_eq!(values.get("a"), None);
    values.set("a", 1);
    values.set("b", 2);
    values.set("a", 3);
    assert_eq!(values.get("a"), Some(3));
    assert_eq!(values.get("b"), Some(2));
    assert_eq!(values.get("c"), None);
}
