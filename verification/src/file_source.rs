//! Listing recorded videos from their storage.

use vstd::prelude::*;
use crate::config::Config;

verus! {

/// Videos read from a directory of the local file system.
#[derive(Clone, Debug)]
pub struct LocalFileSource {
    path: String,
}

impl View for LocalFileSource {
    type V = Seq<char>;

    /// The directory that is listed.
    closed spec fn view(&self) -> Seq<char> {
        self.path@
    }
}

impl LocalFileSource {
    /// The source of the storage directory of the configuration.
    pub fn new(config: &Config) -> (r: LocalFileSource)
        ensures
            r@ == config.storage.path@,
    {
        LocalFileSource { path: config.storage.path.clone() }
    }

    /// The directory that is listed.
    pub fn path(&self) -> (p: &str)
        ensures
            p@ == self@,
    {
        self.path.as_str()
    }
}

} // verus!
