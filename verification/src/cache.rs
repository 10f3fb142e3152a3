//! The cache of opened files.

use vstd::prelude::*;
use vstd::hash_map::StringHashMap;

verus! {

/// Opened files by the path under which each was opened. `H` is the
/// decoder's handle of an opened file, which the cache owns from the moment
/// it is inserted.
///
/// A path is an opaque key: two spellings of one file are two entries.
/// Nothing is ever evicted.
#[verifier::reject_recursive_types(H)]
pub struct FileCache<H> {
    inner: StringHashMap<H>,
}

impl<H> View for FileCache<H> {
    type V = Map<Seq<char>, H>;

    /// The cache as a map from path to handle: at most one handle per path.
    closed spec fn view(&self) -> Map<Seq<char>, H> {
        self.inner@
    }
}

impl<H> FileCache<H> {
    /// A cache that holds nothing.
    pub fn new() -> (cache: Self)
        ensures
            cache@ == Map::<Seq<char>, H>::empty(),
    {
        FileCache { inner: StringHashMap::new() }
    }

    /// Stores `value` under `key`, in place of what was stored there
    /// before, and leaves every other entry as it was.
    pub fn insert(&mut self, key: String, value: H)
        ensures
            final(self)@ == old(self)@.insert(key@, value),
    {
        self.inner.insert(key, value);
    }

    /// The handle stored under `path`, if there is one.
    pub fn lookup(&self, path: &str) -> (found: Option<&H>)
        ensures
            found is Some <==> self@.contains_key(path@),
            found is Some ==> *found.unwrap() == self@[path@],
    {
        self.inner.get(path)
    }

    /// Whether a handle is stored under `path`.
    pub fn contains(&self, path: &str) -> (present: bool)
        ensures
            present == self@.contains_key(path@),
    {
        self.inner.contains_key(path)
    }
}

} // verus!
