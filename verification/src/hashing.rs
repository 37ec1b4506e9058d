//! Hashes of byte strings, and empty maps keyed by them.
use std::collections::hash_map::DefaultHasher;
use std::collections::HashMap;
use std::hash::BuildHasherDefault;
use std::hash::Hasher;
use vstd::prelude::*;
use vstd::std_specs::hash::DefaultHasherAdditionalSpecFns;

verus! {

#[verifier::external_type_specification]
#[verifier::external_body]
pub struct ExSeaHasher(seahash::SeaHasher);

#[verifier::external_type_specification]
#[verifier::external_body]
#[verifier::reject_recursive_types(H)]
pub struct ExBuildHasherDefault<H>(std::hash::BuildHasherDefault<H>);

/// The SeaHash of a byte string, with the seed that the algorithm fixes.
pub uninterp spec fn sea_hash_of(bytes: Seq<u8>) -> u64;

/// `seahash::hash`: the SeaHash of the buffer under the fixed seed.
pub assume_specification[ seahash::hash ](buf: &[u8]) -> (hash: u64)
    ensures
        hash == sea_hash_of(buf@),
;

/// The SeaHash of a byte string.
pub fn sea_hash_bytes(bytes: &[u8]) -> (hash: u64)
    ensures
        hash == sea_hash_of(bytes@),
{
    seahash::hash(bytes)
}

/// The hash that std's default hasher gives a byte string written to it in
/// one piece.
pub fn default_hash_bytes(bytes: &[u8]) -> (hash: u64)
    ensures
        hash == DefaultHasher::spec_finish(seq![bytes@]),
{
    let mut hasher = DefaultHasher::new();
    hasher.write(bytes);
    proof {
        assert(hasher@ =~= seq![bytes@]);
    }
    hasher.finish()
}

/// An empty map with std's default hashing.
pub fn default_hashmap<K, V>() -> (map: HashMap<K, V>)
    ensures
        map@ == Map::<K, V>::empty(),
{
    HashMap::new()
}

/// Builds SeaHash hashers for a map.
pub type SeaHashBuilder = BuildHasherDefault<seahash::SeaHasher>;

/// An empty map that hashes its keys with SeaHash.
pub fn sea_hashmap<K, V>() -> (map: HashMap<K, V, SeaHashBuilder>)
    ensures
        map@ == Map::<K, V>::empty(),
{
    HashMap::<K, V, SeaHashBuilder>::default()
}

} // verus!
