//! The settings of the service that the workflow operations read.
use vstd::prelude::*;

verus! {

/// The settings of the service.
#[derive(Debug)]
pub struct Config {
    /// The address under which users reach the site; links in mails start
    /// with it.
    pub site_external_url: String,
}

impl Clone for Config {
    fn clone(&self) -> (r: Self)
        ensures
            r == *self,
    {
        Config { site_external_url: self.site_external_url.clone() }
    }
}

} // verus!
