pub mod v1;

use vstd::prelude::*;
use vstd::string::*;

verus! {

/// The version of the service's API that a client speaks.
#[derive(Debug, Clone, Copy, PartialEq, Eq)]
pub enum APIVersion {
    V1,
}

impl APIVersion {
    /// The path fragment of this version.
    pub fn to_string(&self) -> (r: String)
        ensures
            r@ == "v1"@,
    {
        match self {
            APIVersion::V1 => String::from_str("v1"),
        }
    }
}

} // verus!
