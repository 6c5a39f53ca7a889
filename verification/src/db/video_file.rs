//! A recorded video in the catalogue.

use vstd::prelude::*;

verus! {

/// A row of the `video_file` table. Times are nanoseconds since the Unix epoch, in UTC.
#[derive(Clone, Debug)]
pub struct Model {
    pub id: i32,
    pub path: String,
    pub name: String,
    pub label: String,
    pub ts: i64,
    pub created: i64,
    pub modified: i64,
    pub storage_type_id: i32,
}

/// The tables a video file is related to.
#[derive(Clone, Copy, Debug, PartialEq, Eq, Structural)]
pub enum Relation {
    StorageType,
}

} // verus!
