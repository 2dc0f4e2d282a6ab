//! Resolving a decoded request path against the root directory, and the
//! four-way decision taken for every request.

use vstd::prelude::*;
use vstd::string::StrSliceExecFns;
use vstd::string::StringExecFns;

verus! {

/// What the filesystem says about a resolved location: an existing
/// directory, an existing file (anything readable that is not a
/// directory), or nothing at all. The probe is advisory; a later read may
/// still fail and must be handled then.
#[derive(Clone, Copy, PartialEq, Eq, Structural, Debug)]
pub enum PathKind {
    Directory,
    File,
    Missing,
}

/// The outcome selected for a request: render a directory listing, redirect
/// to the same path with a trailing separator, serve the file's bytes, or
/// report that nothing exists at the path.
#[derive(Clone, Copy, PartialEq, Eq, Structural, Debug)]
pub enum Outcome {
    List,
    Redirect,
    Serve,
    NotFound,
}

/// Whether a decoded path names a directory the listing way: with a
/// trailing separator.
pub open spec fn ends_with_slash(p: Seq<char>) -> bool {
    p.len() > 0 && p[p.len() - 1] == '/'
}

/// The filesystem location a decoded request path stands for: the root
/// directory and the path, concatenated directly.
pub fn resolve_path(root: &str, decoded: &str) -> (p: String)
    ensures
        p@ == root@ + decoded@,
{
    let mut p = String::from_str(root);
    p.append(decoded);
    p
}

/// Pick the outcome for a request from the probe of its resolved location
/// and the decoded path itself.
pub fn dispatch(kind: PathKind, decoded: &str) -> (o: Outcome)
    ensures
        kind is Directory && ends_with_slash(decoded@) ==> o is List,
        kind is Directory && !ends_with_slash(decoded@) ==> o is Redirect,
        kind is File ==> o is Serve,
        kind is Missing ==> o is NotFound,
{
    match kind {
        PathKind::Directory => {
            let n: usize = decoded.unicode_len();
            if n > 0 && decoded.get_char(n - 1) == '/' {
                Outcome::List
            } else {
                Outcome::Redirect
            }
        },
        PathKind::File => Outcome::Serve,
        PathKind::Missing => Outcome::NotFound,
    }
}

} // verus!
