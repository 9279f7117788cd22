//! Filesystem paths, held as strings. What `std::path` computes on them is named, with what its
//! documentation states of it.

use vstd::prelude::*;
use vstd::string::*;

use crate::bd::opt_view;

verus! {

/// The path `std::path::Path::join` gives for `base` and `name`.
pub uninterp spec fn path_join(base: Seq<char>, name: Seq<char>) -> Seq<char>;

/// The parent that `std::path::Path::parent` gives for `p`, if any.
pub uninterp spec fn path_parent(p: Seq<char>) -> Option<Seq<char>>;

/// The last component that `std::path::Path::file_name` gives for `p`, if any.
pub uninterp spec fn path_file_name(p: Seq<char>) -> Option<Seq<char>>;

/// A path that starts at the root.
pub open spec fn is_absolute_path(p: Seq<char>) -> bool {
    p.len() > 0 && p[0] == '/'
}

/// `Path::join`: `name` adjoined to `base` as a path. Its documentation states, and the
/// contract says, that an absolute `name` replaces `base` and that a relative `name` extends
/// `base` after a `/` (this library is built for Unix, where `/` is the separator). What comes
/// out for an empty `base`, a `base` that already ends in `/`, or an empty `name` is not
/// stated there; it is left to the name `path_join`.
#[verifier::external_body]
pub(crate) fn join_path(base: &str, name: &str) -> (r: String)
    ensures
        r@ == path_join(base@, name@),
        is_absolute_path(name@) ==> r@ == name@,
        name@.len() > 0 && !is_absolute_path(name@) && base@.len() > 0 && base@.last() != '/'
            ==> r@ == base@ + "/"@ + name@,
{
    std::path::Path::new(base).join(name).to_string_lossy().into_owned()
}

/// `Path::parent`: the path without its last component, `None` for a root or an empty path.
/// The result is named by `path_parent`.
#[verifier::external_body]
pub(crate) fn parent_dir(p: &str) -> (r: Option<String>)
    ensures
        opt_view(r) == path_parent(p@),
{
    std::path::Path::new(p).parent().map(|q| q.to_string_lossy().into_owned())
}

/// `Path::file_name`: the last component of a path, `None` when it ends in `..`. The result is
/// named by `path_file_name`.
#[verifier::external_body]
pub(crate) fn file_name_of(p: &str) -> (r: Option<String>)
    ensures
        opt_view(r) == path_file_name(p@),
{
    std::path::Path::new(p).file_name().map(|n| n.to_string_lossy().into_owned())
}

} // verus!
