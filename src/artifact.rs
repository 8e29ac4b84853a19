//! Where a copy of an actual image is kept for inspection.

use vstd::prelude::*;
use vstd::string::*;

verus! {

/// The directory under which copies are kept, mirroring the baseline paths.
pub const ARTIFACT_ROOT: &'static str = "artifacts/";

/// The artifact path of a baseline path: the path under the artifact root.
pub open spec fn artifact_path_of(path: Seq<char>) -> Seq<char> {
    "artifacts/"@ + path
}

/// The artifact path of `path`: `path` prefixed with the artifact root.
pub fn artifact_path(path: &str) -> (r: String)
    ensures
        r@ == artifact_path_of(path@),
{
    let root = String::from_str(ARTIFACT_ROOT);
    proof {
        reveal_strlit("artifacts/");
    }
    root.concat(path)
}

} // verus!
