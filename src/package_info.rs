use vstd::prelude::*;
use vstd::string::StringExecFns;

verus! {

/// What `std::path::Path::parent` gives for a path: the path without its
/// last component, or `None` for a root or an empty path.
pub uninterp spec fn parent_path(p: Seq<char>) -> Option<Seq<char>>;

/// Relies on `std::path::Path::parent`, which is a function of the path text
/// and has no parent for the empty path.
#[verifier::external_body]
fn path_parent(p: &str) -> (r: Option<String>)
    ensures
        match r {
            Some(d) => parent_path(p@) == Some(d@),
            None => parent_path(p@).is_none(),
        },
        p@.len() == 0 ==> r.is_none(),
{
    match std::path::Path::new(p).parent() {
        Some(d) => Some(d.to_string_lossy().into_owned()),
        None => None,
    }
}

/// A package taking part in a build: its id, the directory that holds its
/// manifest (as a dependency's root or as the tested package's root), and
/// the source files that belong to it.
pub struct PackageInfo {
    pub id: String,
    pub dep_root: Option<String>,
    pub tested_root: Option<String>,
    pub files: Vec<String>,
}

/// The view of an optional path.
pub open spec fn opt_view(o: Option<String>) -> Option<Seq<char>> {
    match o {
        Some(s) => Some(s@),
        None => None,
    }
}

impl PackageInfo {
    /// Describes the package with manifest `manifest_path` and source files
    /// `files`; its root is the manifest's directory, filed as a dependency
    /// root when `is_dep` holds and as the tested root otherwise. `None` when
    /// the manifest path has no directory part.
    pub fn new(id: &str, manifest_path: &str, is_dep: bool, files: Vec<String>) -> (r: Option<Self>)
        ensures
            match r {
                Some(info) => {
                    &&& parent_path(manifest_path@) is Some
                    &&& info.id@ == id@
                    &&& info.files == files
                    &&& opt_view(info.dep_root) == (if is_dep { parent_path(manifest_path@) } else { None })
                    &&& opt_view(info.tested_root) == (if is_dep { None } else { parent_path(manifest_path@) })
                },
                None => parent_path(manifest_path@).is_none(),
            },
    {
        let dir = match path_parent(manifest_path) {
            Some(d) => d,
            None => return None,
        };
        let (dep_root, tested_root) = if is_dep {
            (Some(dir), None)
        } else {
            (None, Some(dir))
        };
        Some(PackageInfo { id: String::from_str(id), dep_root, tested_root, files })
    }
}

} // verus!
