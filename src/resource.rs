use vstd::prelude::*;

use crate::event::{contains_path, opt_path_view, paths_view};

verus! {

/// The directory part of a path, as `std::path::Path::parent` reads it on this platform;
/// `None` for a root or an empty path.
pub uninterp spec fn parent_of(path: Seq<char>) -> Option<Seq<char>>;

/// Relies on `std::path::Path::parent`: its result depends on the text of the path alone.
/// The parent of a path given as text is a prefix of that text, so it converts to text
/// without loss.
#[verifier::external_body]
fn path_parent(path: &str) -> (r: Option<String>)
    ensures
        opt_path_view(r) == parent_of(path@),
{
    match std::path::Path::new(path).parent() {
        Some(dir) => Some(dir.to_string_lossy().into_owned()),
        None => None,
    }
}

/// The directory registered with the watch service for a resource: its parent, or the
/// path itself where it has none.
pub open spec fn watch_dir_of(path: Seq<char>) -> Seq<char> {
    match parent_of(path) {
        Some(dir) => dir,
        None => path,
    }
}

/// The directory to watch so that changes to the file at `path` are seen.
pub fn watch_dir(path: &str) -> (r: String)
    ensures
        r@ == watch_dir_of(path@),
{
    match path_parent(path) {
        Some(dir) => dir,
        None => path.to_owned(),
    }
}

/// Every element of the sequence occurs once.
pub open spec fn no_duplicates(s: Seq<Seq<char>>) -> bool {
    forall|i: int, j: int| 0 <= i < j < s.len() ==> s[i] != s[j]
}

/// `dirs` holds the watch directory of every path in `paths` and nothing else, each once.
pub open spec fn is_watch_dir_set(dirs: Seq<Seq<char>>, paths: Seq<Seq<char>>) -> bool {
    &&& no_duplicates(dirs)
    &&& forall|k: int| 0 <= k < paths.len() ==> dirs.contains(#[trigger] watch_dir_of(paths[k]))
    &&& forall|i: int| 0 <= i < dirs.len() ==> #[trigger] names_dir(paths, dirs[i])
}

/// Some path of `paths` has `dir` as its watch directory.
pub open spec fn names_dir(paths: Seq<Seq<char>>, dir: Seq<char>) -> bool {
    exists|k: int| 0 <= k < paths.len() && #[trigger] watch_dir_of(paths[k]) == dir
}

/// Taking one more path into account: its watch directory is appended to a set of
/// directories unless the set already holds it.
pub proof fn lemma_watch_dir_set_extend(dirs: Seq<Seq<char>>, paths: Seq<Seq<char>>, p: Seq<char>)
    requires
        is_watch_dir_set(dirs, paths),
    ensures
        dirs.contains(watch_dir_of(p)) ==> is_watch_dir_set(dirs, paths.push(p)),
        !dirs.contains(watch_dir_of(p)) ==> is_watch_dir_set(dirs.push(watch_dir_of(p)), paths.push(p)),
{
    let d = watch_dir_of(p);
    let more = paths.push(p);
    let nd = if dirs.contains(d) {
        dirs
    } else {
        dirs.push(d)
    };
    assert(more[paths.len() as int] == p);
    assert forall|i: int| 0 <= i < nd.len() implies #[trigger] names_dir(more, nd[i]) by {
        if i < dirs.len() {
            assert(nd[i] == dirs[i]);
            assert(names_dir(paths, dirs[i]));
            let j = choose|j: int| 0 <= j < paths.len() && #[trigger] watch_dir_of(paths[j]) == dirs[i];
            assert(more[j] == paths[j]);
        } else {
            assert(watch_dir_of(more[paths.len() as int]) == nd[i]);
        }
    }
    assert forall|j: int| 0 <= j < more.len() implies nd.contains(#[trigger] watch_dir_of(more[j])) by {
        if j < paths.len() {
            assert(more[j] == paths[j]);
            let i = choose|i: int| 0 <= i < dirs.len() && dirs[i] == watch_dir_of(paths[j]);
            assert(nd[i] == dirs[i]);
        } else if !dirs.contains(d) {
            assert(nd[dirs.len() as int] == d);
        }
    }
}

/// The directories to register with the watch service for `paths`: one per distinct
/// containing directory.
pub fn watch_dirs(paths: &Vec<String>) -> (r: Vec<String>)
    ensures
        is_watch_dir_set(paths_view(r@), paths_view(paths@)),
{
    let ghost pv = paths_view(paths@);
    let mut dirs: Vec<String> = Vec::new();
    let mut k: usize = 0;
    while k < paths.len()
        invariant
            0 <= k <= paths.len(),
            pv == paths_view(paths@),
            is_watch_dir_set(paths_view(dirs@), pv.take(k as int)),
        decreases paths.len() - k,
    {
        let dir = watch_dir(paths[k].as_str());
        let ghost old_dirs = paths_view(dirs@);
        let seen = contains_path(&dir, &dirs);
        if !seen {
            dirs.push(dir);
        }
        proof {
            assert(pv.take(k as int + 1) =~= pv.take(k as int).push(paths@[k as int]@));
            lemma_watch_dir_set_extend(old_dirs, pv.take(k as int), paths@[k as int]@);
            if !seen {
                assert(paths_view(dirs@) =~= old_dirs.push(dir@));
            } else {
                assert(paths_view(dirs@) =~= old_dirs);
            }
        }
        k = k + 1;
    }
    assert(pv.take(paths.len() as int) =~= pv);
    dirs
}

} // verus!
