//! Keys that name accounts and identities.

use crate::seq_facts::{is_first_position, lemma_first_position};
use vstd::prelude::*;
use vstd::std_specs::cmp::PartialEqSpecImpl;

verus! {

/// A 32-byte key naming an account or an authenticated identity.
///
/// Two keys are the same exactly when they hold the same bytes.
#[derive(Clone, Copy, Debug)]
pub struct Key {
    pub bytes: [u8; 32],
}

impl PartialEq for Key {
    fn eq(&self, other: &Key) -> (r: bool) {
        let mut i: usize = 0;
        while i < 32
            invariant
                i <= 32,
                forall|j: int| 0 <= j < i ==> self.bytes[j] == other.bytes[j],
            decreases 32 - i,
        {
            if self.bytes[i] != other.bytes[i] {
                return false;
            }
            i += 1;
        }
        assert(self.bytes =~= other.bytes);
        true
    }
}

impl Eq for Key {

}

impl PartialEqSpecImpl for Key {
    open spec fn obeys_eq_spec() -> bool {
        true
    }

    open spec fn eq_spec(&self, other: &Key) -> bool {
        *self == *other
    }
}

impl Key {
    /// The key made of `bytes`.
    pub fn new(bytes: [u8; 32]) -> (key: Key)
        ensures
            key.bytes == bytes,
    {
        Key { bytes }
    }

    /// The bytes of this key.
    pub fn to_bytes(&self) -> (bytes: [u8; 32])
        ensures
            bytes == self.bytes,
    {
        self.bytes
    }
}

/// The first position of `key` in `keys`, if it occurs there.
pub fn position(keys: &Vec<Key>, key: &Key) -> (found: Option<usize>)
    ensures
        found matches Some(i) ==> is_first_position(keys@, *key, i as int),
        found is None ==> !keys@.contains(*key),
        found is Some <==> keys@.contains(*key),
        found matches Some(i) ==> keys@.index_of_first(*key) == Some(i as int),
{
    let n = keys.len();
    let mut i: usize = 0;
    while i < n
        invariant
            n == keys.len(),
            i <= n,
            forall|j: int| 0 <= j < i ==> keys@[j] != *key,
        decreases n - i,
    {
        if keys[i] == *key {
            proof {
                lemma_first_position(keys@, *key, i as int);
            }
            return Some(i);
        }
        i += 1;
    }
    None
}

/// Whether `key` occurs in `keys`.
pub fn contains(keys: &Vec<Key>, key: &Key) -> (found: bool)
    ensures
        found == keys@.contains(*key),
{
    position(keys, key).is_some()
}

/// Whether no key occurs twice in `keys`.
pub fn all_distinct(keys: &Vec<Key>) -> (distinct: bool)
    ensures
        distinct == keys@.no_duplicates(),
{
    let n = keys.len();
    let mut i: usize = 0;
    while i < n
        invariant
            n == keys.len(),
            i <= n,
            forall|a: int, b: int| 0 <= a < i && 0 <= b < n && a != b ==> keys@[a] != keys@[b],
        decreases n - i,
    {
        let mut j: usize = i + 1;
        while j < n
            invariant
                n == keys.len(),
                i < n,
                i < j <= n,
                forall|b: int| i < b < j ==> keys@[i as int] != keys@[b],
            decreases n - j,
        {
            if keys[i] == keys[j] {
                return false;
            }
            j += 1;
        }
        i += 1;
    }
    true
}

} // verus!
