//! Where a backend keeps its files.
//!
//! Each backend owns one directory below the cache root, named after the
//! backend, and writes its artifacts to fixed names inside it. The paths are
//! functions of their parts, so every run of a backend reuses one location.

use vstd::prelude::*;
use vstd::string::StringExecFns;

verus! {

/// `parent`, a slash, and `child`.
pub open spec fn joined(parent: Seq<char>, child: Seq<char>) -> Seq<char> {
    parent + seq!['/'] + child
}

/// The directory of the backend `backend_name` below `cache_root`.
pub open spec fn workspace_of(cache_root: Seq<char>, backend_name: Seq<char>) -> Seq<char> {
    joined(cache_root, backend_name)
}

/// The artifact `file_name` of the backend `backend_name` below `cache_root`.
pub open spec fn artifact_of(
    cache_root: Seq<char>,
    backend_name: Seq<char>,
    file_name: Seq<char>,
) -> Seq<char> {
    joined(workspace_of(cache_root, backend_name), file_name)
}

/// Appends `child` to the directory `parent`.
fn join(parent: &str, child: &str) -> (path: String)
    ensures
        path@ == joined(parent@, child@),
{
    proof {
        reveal_strlit("/");
    }
    let mut path = parent.to_owned();
    path.append("/");
    path.append(child);
    assert("/"@ =~= seq!['/']);
    path
}

/// Path of the directory that the backend `backend_name` owns below
/// `cache_root`. Nothing is created: the host creates the directory, with its
/// parents, and treats one that exists as created.
pub fn workspace_path(cache_root: &str, backend_name: &str) -> (path: String)
    ensures
        path@ == workspace_of(cache_root@, backend_name@),
{
    join(cache_root, backend_name)
}

/// Path of the artifact `file_name` inside the directory `workspace`.
pub fn artifact_path(workspace: &str, file_name: &str) -> (path: String)
    ensures
        path@ == joined(workspace@, file_name@),
{
    join(workspace, file_name)
}

/// Two backends never share a directory below one cache root.
pub proof fn workspaces_are_disjoint(cache_root: Seq<char>, a: Seq<char>, b: Seq<char>)
    requires
        workspace_of(cache_root, a) == workspace_of(cache_root, b),
    ensures
        a == b,
{
    let left = workspace_of(cache_root, a);
    let right = workspace_of(cache_root, b);
    let skip = cache_root.len() + 1;
    assert(left.len() == skip + a.len());
    assert(right.len() == skip + b.len());
    assert forall|i: int| 0 <= i < a.len() implies a[i] == b[i] by {
        assert(left[skip + i] == a[i]);
        assert(right[skip + i] == b[i]);
    }
    assert(a =~= b);
}

/// An artifact lies inside its backend's directory: its path starts with the
/// directory's path and a slash.
pub proof fn artifact_lies_in_workspace(
    cache_root: Seq<char>,
    backend_name: Seq<char>,
    file_name: Seq<char>,
)
    ensures
        (workspace_of(cache_root, backend_name) + seq!['/']).is_prefix_of(
            artifact_of(cache_root, backend_name, file_name),
        ),
{
    let dir = workspace_of(cache_root, backend_name) + seq!['/'];
    let path = artifact_of(cache_root, backend_name, file_name);
    assert(path.subrange(0, dir.len() as int) =~= dir);
}

} // verus!
