//! Pure path arithmetic on strings: joining, detecting absolute paths, and
//! resolving a chosen executable path against the current working directory.

use vstd::prelude::*;

verus! {

/// `base` and `rel` joined with a single separator.
pub open spec fn join_spec(base: Seq<char>, rel: Seq<char>) -> Seq<char> {
    base + "/"@ + rel
}

/// Joins a base directory and a relative path with a single separator.
pub fn join_path(base: &str, rel: &str) -> (r: String)
    ensures
        r@ == join_spec(base@, rel@),
{
    String::from_str(base).concat("/").concat(rel)
}

/// Whether `p` is already absolute: a Unix or UNC-style leading separator,
/// or a drive-letter prefix such as `C:`.
pub open spec fn is_absolute_spec(p: Seq<char>) -> bool {
    (p.len() >= 1 && (p[0] == '/' || p[0] == '\\')) || (p.len() >= 2 && p[1] == ':')
}

/// Whether `p` is already an absolute path.
pub fn is_absolute(p: &str) -> (r: bool)
    ensures
        r == is_absolute_spec(p@),
{
    let n = p.unicode_len();
    if n >= 1 {
        let c0 = p.get_char(0);
        if c0 == '/' || c0 == '\\' {
            return true;
        }
    }
    if n >= 2 {
        let c1 = p.get_char(1);
        c1 == ':'
    } else {
        false
    }
}

/// `p` without a redundant leading `./` segment.
pub open spec fn strip_leading_dot_spec(p: Seq<char>) -> Seq<char> {
    if p.len() >= 2 && p[0] == '.' && p[1] == '/' {
        p.subrange(2, p.len() as int)
    } else {
        p
    }
}

/// Drops a redundant leading `./` segment, if present.
pub fn strip_leading_dot(p: &str) -> (r: &str)
    ensures
        r@ == strip_leading_dot_spec(p@),
{
    let n = p.unicode_len();
    if n >= 2 && p.get_char(0) == '.' && p.get_char(1) == '/' {
        p.substring_char(2, n)
    } else {
        p
    }
}

/// The launch-environment-independent form of `p`: unchanged when already
/// absolute, otherwise anchored under the working directory `cwd`.
pub open spec fn absolutize_spec(cwd: Seq<char>, p: Seq<char>) -> Seq<char> {
    if is_absolute_spec(p) {
        p
    } else {
        join_spec(cwd, strip_leading_dot_spec(p))
    }
}

/// Resolves `p` to an absolute path relative to the working directory `cwd`.
pub fn absolutize(cwd: &str, p: &str) -> (r: String)
    ensures
        r@ == absolutize_spec(cwd@, p@),
{
    if is_absolute(p) {
        String::from_str(p)
    } else {
        join_path(cwd, strip_leading_dot(p))
    }
}

} // verus!
