//! A hash set of byte strings, backed by `hashbrown`.

use vstd::prelude::*;

verus! {

/// A set of byte strings stored in a `hashbrown::HashSet<Vec<u8>>`.
#[verifier::external_body]
pub struct ByteStringSet {
    set: hashbrown::HashSet<Vec<u8>>,
}

/// The byte strings that a `ByteStringSet` holds.
pub uninterp spec fn byte_set_contents(s: ByteStringSet) -> Set<Seq<u8>>;

impl ByteStringSet {
    /// Calls `hashbrown::HashSet::new`; the contract claims that the new set is empty.
    #[verifier::external_body]
    pub(crate) fn new() -> (s: ByteStringSet)
        ensures
            byte_set_contents(s) == Set::<Seq<u8>>::empty(),
    {
        ByteStringSet { set: hashbrown::HashSet::new() }
    }

    /// Calls `hashbrown::HashSet::insert`; the contract claims that afterwards the set
    /// holds exactly what it held before plus `value`, and that the call returns
    /// whether `value` was absent before.
    #[verifier::external_body]
    pub(crate) fn insert(&mut self, value: Vec<u8>) -> (added: bool)
        ensures
            byte_set_contents(*final(self)) == byte_set_contents(*old(self)).insert(value@),
            added == !byte_set_contents(*old(self)).contains(value@),
    {
        self.set.insert(value)
    }

    /// Calls `hashbrown::HashSet::contains`; the contract claims that it returns
    /// whether the set holds `value`.
    #[verifier::external_body]
    pub(crate) fn contains(&self, value: &Vec<u8>) -> (r: bool)
        ensures
            r == byte_set_contents(*self).contains(value@),
    {
        self.set.contains(value)
    }
}

} // verus!
