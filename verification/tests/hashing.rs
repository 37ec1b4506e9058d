use local_compute::hashing::{default_hash_bytes, default_hashmap, sea_hash_bytes, sea_hashmap};
use std::hash::Hasher;

#[test]
fn sea_hash_of_a_known_text() {
    assert_eq!(sea_hash_bytes(b"to be or not to be"), 1988685042348123509);
}

#[test]
fn sea_hash_tells_texts_apart() {
    assert_ne!(sea_hash_bytes(b"to be or not to be "), sea_hash_bytes(b"to be or not to be"));
    assert_eq!(sea_hash_bytes(b""), seahash::hash(b""));
}

#[test]
fn default_hash_is_that_of_one_write() {
    let mut hasher = std::collections::hash_map::DefaultHasher::new();
    hasher.write(b"abc");
    assert_eq!(default_hash_bytes(b"abc"), hasher.finish());
    assert_ne!(default_hash_bytes(b"abc"), default_hash_bytes(b"abd"));
}

#[test]
fn new_maps_are_empty() {
    let mut plain = default_hashmap::<u64, u64>();
    assert!(plain.is_empty());
    plain.insert(1, 2);
    assert_eq!(plain.get(&1), Some(&2));

    let mut sea = sea_hashmap::<u64, u64>();
    assert!(sea.is_empty());
    sea.insert(7, 8);
    assert_eq!(sea.len(), 1);
    assert_eq!(sea.get(&7), Some(&8));
}
