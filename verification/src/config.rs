//! Where the program finds the transform tool and keeps its profiles.

use vstd::prelude::*;

verus! {

/// The two paths that the program is configured with.
#[derive(Debug)]
pub struct AppConfig {
    /// The archive that holds the transform tool.
    pub jar_path: String,
    /// The file that the profiles are saved to.
    pub envs_path: String,
}

} // verus!
