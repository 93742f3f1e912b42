//! An index from texts to slots: the hash map behind the dictionary and the
//! document cache.

use rustc_hash::FxHashMap;
use vstd::prelude::*;

verus! {

/// What an index holds: the slot of each text that has one.
pub uninterp spec fn slots(index: FxHashMap<String, usize>) -> Map<Seq<char>, usize>;

/// `FxHashMap::default`: a map that holds nothing.
#[verifier::external_body]
pub(crate) fn index_new() -> (made: FxHashMap<String, usize>)
    ensures
        slots(made).dom() == Set::<Seq<char>>::empty(),
{
    FxHashMap::default()
}

/// `HashMap::get`: the slot stored under `key`, if there is one. Keys are
/// compared as texts.
#[verifier::external_body]
pub(crate) fn index_get(index: &FxHashMap<String, usize>, key: &str) -> (slot: Option<usize>)
    ensures
        slot == if slots(*index).contains_key(key@) {
            Some(slots(*index)[key@])
        } else {
            None
        },
{
    index.get(key).copied()
}

/// `HashMap::insert`: stores `slot` under `key`, in place of what was
/// stored under that key before; every other key keeps its slot.
#[verifier::external_body]
pub(crate) fn index_insert(index: &mut FxHashMap<String, usize>, key: String, slot: usize)
    ensures
        slots(*final(index)) == slots(*old(index)).insert(key@, slot),
{
    index.insert(key, slot);
}

} // verus!
