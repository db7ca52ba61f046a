//! The paths that the listeners serve.

use vstd::prelude::*;
use vstd::string::*;

verus! {

/// Seconds that an idle connection is kept.
pub const KEEP_ALIVE_SECS: u64 = 10;

/// The path of the liveness probe on the status listener.
pub const LIVENESS_PATH: &'static str = "/liveness";

/// The path of the readiness probe on the status listener.
pub const READINESS_PATH: &'static str = "/readiness";

/// The path of the metrics exposition on the status listener.
pub const METRICS_PATH: &'static str = "/metrics";

/// `path` under the path prefix.
pub fn prefixed_path(prefix: &str, path: &str) -> (full: String)
    ensures
        full@ == prefix@ + path@,
{
    let mut full = String::from_str(prefix);
    full.append(path);
    full
}

/// The two paths of the processed graph under the path prefix: the one kept
/// for older clients, then the current one.
pub fn graph_paths(prefix: &str) -> (paths: (String, String))
    ensures
        paths.0@ == prefix@ + "/v1/graph"@,
        paths.1@ == prefix@ + "/graph"@,
{
    (prefixed_path(prefix, "/v1/graph"), prefixed_path(prefix, "/graph"))
}

/// The path of the secondary metadata under the path prefix.
pub fn graph_data_path(prefix: &str) -> (path: String)
    ensures
        path@ == prefix@ + "/graph-data"@,
{
    prefixed_path(prefix, "/graph-data")
}

} // verus!
