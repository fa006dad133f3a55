//! A byte-keyed store that lends out its map.
use vstd::prelude::*;
use std::collections::BTreeMap;

verus! {

/// Byte strings stored under byte-string keys.
#[derive(Debug)]
pub struct Datastore {
    pub inner: BTreeMap<Vec<u8>, Vec<u8>>,
}

impl Datastore {
    /// An empty store.
    pub fn new() -> (r: Self)
        ensures
            r.inner@ == Map::<Vec<u8>, Vec<u8>>::empty(),
    {
        Self { inner: BTreeMap::new() }
    }
}

impl std::ops::Deref for Datastore {
    type Target = BTreeMap<Vec<u8>, Vec<u8>>;

    fn deref(&self) -> &Self::Target {
        &self.inner
    }
}

impl std::ops::DerefMut for Datastore {
    fn deref_mut(&mut self) -> &mut Self::Target {
        &mut self.inner
    }
}

} // verus!
