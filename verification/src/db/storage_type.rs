//! A kind of storage that videos can be kept in.

use vstd::prelude::*;

verus! {

/// A row of the `storage_type` table.
#[derive(Clone, Debug)]
pub struct Model {
    pub id: i32,
    pub name: String,
}

/// The tables a storage type is related to.
#[derive(Clone, Copy, Debug, PartialEq, Eq, Structural)]
pub enum Relation {
    VideoFile,
}

} // verus!
