//! Names shared with the session layer.
use vstd::prelude::*;

verus! {

/// The session a client attaches to when none is named.
pub const DEFAULT_SESSION_NAME: &'static str = "default";

/// The version this build reports as `herdr <version>`.
pub const CURRENT_VERSION: &'static str = "0.1.0";

} // verus!
