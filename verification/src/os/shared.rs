//! Which platforms have an [`crate::os::types::OSManager`].

use crate::text::{contains, occurs_at};
use vstd::prelude::*;
use vstd::string::StringSliceAdditionalSpecFns;

verus! {

/// The word by which a platform's name tells that it is a Linux.
pub const LINUX: &'static str = "linux";

/// Whether the name of a platform holds the word [`LINUX`].
pub open spec fn names_linux(platform: &str) -> bool {
    exists|at: int| occurs_at(platform.spec_bytes(), LINUX.spec_bytes(), at)
}

/// Tells whether there is a manager for `platform`, named as a target triple:
/// there is one for every Linux, and for nothing else.
pub fn recognize_platform(platform: &str) -> (known: Result<(), &'static str>)
    ensures
        known is Ok <==> names_linux(platform),
        known matches Err(message) ==> message@ == "Platform do not recognized"@,
{
    if contains(platform.as_bytes(), LINUX.as_bytes()) {
        Ok(())
    } else {
        Err("Platform do not recognized")
    }
}

} // verus!
