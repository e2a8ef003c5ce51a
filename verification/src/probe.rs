//! Questions asked of the host's disk.

use vstd::prelude::*;

verus! {

/// `Path::exists` of the standard library: whether the path names something
/// on disk. The answer depends on the disk, so nothing is claimed of it.
#[verifier::external_body]
pub(crate) fn path_exists(path: &str) -> (exists: bool) {
    std::path::Path::new(path).exists()
}

/// The parent of a path, as the standard library computes it: the path
/// without its last component, or nothing for a root or an empty path.
pub uninterp spec fn parent_path(path: Seq<char>) -> Option<Seq<char>>;

/// `Path::parent` of the standard library. The result is a function of the
/// text alone; the contract gives it the name [`parent_path`] and claims
/// nothing else of it. A parent that is not valid Unicode cannot arise
/// from a text.
#[verifier::external_body]
pub(crate) fn path_parent(path: &str) -> (parent: Option<String>)
    ensures
        parent.deep_view() == parent_path(path@),
{
    std::path::Path::new(path).parent().map(|p| p.to_string_lossy().into_owned())
}

} // verus!
