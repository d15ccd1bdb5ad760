//! A value paired with the location it is persisted at. Reading and writing
//! the location is the embedding program's concern; the store itself only
//! keeps the pair together.

use vstd::prelude::*;

verus! {

/// A persisted-store I/O failure, surfaced to the caller of a mutating call.
#[derive(Clone, Copy, PartialEq, Eq, Structural, Debug)]
pub enum StorageError {
    Io,
}

/// A value of type `T` together with the path of its on-disk document.
#[derive(Debug)]
pub struct SaveData<T> {
    pub path: String,
    pub data: T,
}

impl<T> SaveData<T> {
    pub fn new(path: String, init_data: T) -> (r: Self)
        ensures
            r.path@ == path@,
            r.data == init_data,
    {
        SaveData { path, data: init_data }
    }
}

} // verus!
