//! The store of recorded videos on the local file system.

use vstd::prelude::*;
use crate::config::Config;
use crate::text::{contains, occurs_in};

verus! {

/// A recorded video, by its file name.
#[derive(Clone, Debug)]
pub struct VideoFile {
    pub file_name: String,
}

/// Videos kept in a directory of the local file system.
#[derive(Clone, Debug)]
pub struct LocalVideoRepository {
    path: String,
}

impl View for LocalVideoRepository {
    type V = Seq<char>;

    /// The directory that holds the videos.
    closed spec fn view(&self) -> Seq<char> {
        self.path@
    }
}

impl LocalVideoRepository {
    /// The repository of the storage directory of the configuration.
    pub fn new(config: &Config) -> (r: LocalVideoRepository)
        ensures
            r@ == config.storage.path@,
    {
        LocalVideoRepository { path: config.storage.path.clone() }
    }

    /// The directory that holds the videos.
    pub fn path(&self) -> (p: &str)
        ensures
            p@ == self@,
    {
        self.path.as_str()
    }
}

/// Whether a file belongs to the camera labelled `label`: its name contains the label.
pub fn label_matches(file_name: &str, label: &str) -> (r: bool)
    ensures
        r == occurs_in(file_name@, label@),
{
    contains(file_name, label)
}

} // verus!
