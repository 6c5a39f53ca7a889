//! Upload of finished recordings to a cloud bucket.

use vstd::prelude::*;

verus! {

/// Why an upload could not be made.
#[derive(Clone, Debug)]
pub struct UploadError {
    description: String,
}

impl View for UploadError {
    type V = Seq<char>;

    /// The message that describes the failure.
    closed spec fn view(&self) -> Seq<char> {
        self.description@
    }
}

impl UploadError {
    /// An error described by `msg`.
    pub fn new(msg: &str) -> (e: UploadError)
        ensures
            e@ == msg@,
    {
        UploadError { description: String::from_str(msg) }
    }

    /// The message that describes the failure.
    pub fn description(&self) -> (d: &str)
        ensures
            d@ == self@,
    {
        self.description.as_str()
    }
}

/// The region an upload goes to: the one the environment names, else the one
/// the configuration names; when neither names one, the upload fails with
/// "Region not set".
pub fn select_region(env_region: Option<String>, config_region: &Option<String>) -> (r: Result<
    String,
    UploadError,
>)
    ensures
        match env_region {
            Some(e) => r matches Ok(s) && s@ == e@,
            None => match config_region {
                Some(c) => r matches Ok(s) && s@ == c@,
                None => r matches Err(e) && e@ == "Region not set"@,
            },
        },
{
    match env_region {
        Some(r) => Ok(r),
        None => match config_region {
            Some(r) => Ok(r.clone()),
            None => Err(UploadError::new("Region not set")),
        },
    }
}

} // verus!
