//! The versions that the usage interface expects. The two go together: both are raised at
//! once, and a request to that interface names a profile too.

use vstd::prelude::*;

verus! {

/// The version of the IDE that the usage interface admits.
pub const USAGE_API_KIRO_VERSION: &'static str = "0.12.155";

/// The version of the SDK that goes with it.
pub const USAGE_API_AWS_SDK_VERSION: &'static str = "1.0.34";

} // verus!
