//! What is remembered from the previous run.

use vstd::prelude::*;

verus! {

/// Where the configuration was loaded from the last time, if it was loaded
/// from a place other than the usual one.
#[derive(Debug, Clone, PartialEq, Eq)]
pub struct Previous {
    pub load_cfg_path: Option<String>,
}

impl Default for Previous {
    fn default() -> (previous: Self)
        ensures
            previous.load_cfg_path.is_none(),
    {
        Previous { load_cfg_path: None }
    }
}

impl Previous {
    /// The path to load the configuration from: the remembered one, or
    /// `fallback` where none is remembered.
    pub fn config_path(&self, fallback: &String) -> (path: String)
        ensures
            path@ == match self.load_cfg_path {
                Some(remembered) => remembered@,
                None => fallback@,
            },
    {
        match &self.load_cfg_path {
            Some(remembered) => remembered.clone(),
            None => fallback.clone(),
        }
    }
}

} // verus!
