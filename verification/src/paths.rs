//! Resolution of a relative input path against the current working
//! directory. Only the textual joining lives here; whether the resolved
//! path exists is checked by the caller against the file system.

use vstd::prelude::*;
use vstd::string::{StringExecFns, StrSliceExecFns};

verus! {

/// A path is absolute when it starts at the root.
pub open spec fn spec_is_absolute(p: Seq<char>) -> bool {
    p.len() > 0 && p[0] == '/'
}

/// A leading `./` adds nothing once the path is joined to a base.
pub open spec fn spec_strip_dot_slash(p: Seq<char>) -> Seq<char> {
    if p.len() >= 2 && p[0] == '.' && p[1] == '/' {
        p.subrange(2, p.len() as int)
    } else {
        p
    }
}

/// An absolute path stands as it is; a relative one is joined to the
/// working directory, with a leading `./` dropped.
pub open spec fn spec_resolve(cwd: Seq<char>, p: Seq<char>) -> Seq<char> {
    if spec_is_absolute(p) {
        p
    } else {
        cwd + "/"@ + spec_strip_dot_slash(p)
    }
}

/// Resolve a user-given path against the working directory.
pub fn resolve_path(cwd: &str, p: &str) -> (r: String)
    ensures
        r@ == spec_resolve(cwd@, p@),
{
    let n = p.unicode_len();
    if n > 0 && p.get_char(0) == '/' {
        p.to_owned()
    } else {
        let rel = if n >= 2 && p.get_char(0) == '.' && p.get_char(1) == '/' {
            p.substring_char(2, n)
        } else {
            p
        };
        let mut r = cwd.to_owned();
        r.append("/");
        r.append(rel);
        assert(r@ =~= spec_resolve(cwd@, p@));
        r
    }
}

/// A path with a leading `./` resolves to the working directory, a
/// separator, and the remainder after the `./`.
pub proof fn lemma_dot_slash_resolution(cwd: Seq<char>, p: Seq<char>)
    requires
        p.len() >= 2,
        p[0] == '.',
        p[1] == '/',
    ensures
        spec_resolve(cwd, p) == cwd + "/"@ + p.subrange(2, p.len() as int),
{
}

} // verus!
