use program_logic::key::{all_distinct, contains, position, Key};

fn key(tag: u8) -> Key {
    Key::new([tag; 32])
}

#[test]
fn keys_with_the_same_bytes_are_equal() {
    assert_eq!(key(7), key(7));
    assert_eq!(key(7).to_bytes(), [7u8; 32]);
}

#[test]
fn keys_that_differ_in_one_byte_are_different() {
    let mut bytes = [7u8; 32];
    bytes[31] = 8;
    assert_ne!(key(7), Key::new(bytes));
    let mut first = [7u8; 32];
    first[0] = 0;
    assert_ne!(key(7), Key::new(first));
}

#[test]
fn position_gives_the_first_occurrence() {
    let keys = vec![key(1), key(2), key(3), key(2)];
    assert_eq!(position(&keys, &key(1)), Some(0));
    assert_eq!(position(&keys, &key(2)), Some(1));
    assert_eq!(position(&keys, &key(3)), Some(2));
    assert_eq!(position(&keys, &key(4)), None);
    assert_eq!(position(&Vec::new(), &key(1)), None);
}

#[test]
fn contains_tells_members_from_strangers() {
    let keys = vec![key(1), key(2)];
    assert!(contains(&keys, &key(1)));
    assert!(contains(&keys, &key(2)));
    assert!(!contains(&keys, &key(3)));
    assert!(!contains(&Vec::new(), &key(1)));
}

#[test]
fn all_distinct_finds_repeats_anywhere() {
    assert!(all_distinct(&Vec::new()));
    assert!(all_distinct(&vec![key(1)]));
    assert!(all_distinct(&vec![key(1), key(2), key(3)]));
    assert!(!all_distinct(&vec![key(1), key(1)]));
    assert!(!all_distinct(&vec![key(1), key(2), key(1)]));
    assert!(!all_distinct(&vec![key(1), key(2), key(3), key(3)]));
    assert!(!all_distinct(&vec![key(1), key(2), key(2), key(3)]));
}
