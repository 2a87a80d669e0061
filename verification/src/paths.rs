//! Path text around the installed binary: joining path segments and the
//! fixed install location under the home directory.

use vstd::prelude::*;
use vstd::string::StrSliceExecFns;
use vstd::string::StringExecFns;

verus! {

/// Joining a directory and a relative segment: a single separator is
/// inserted unless the directory already ends with one.
pub open spec fn spec_path_join(dir: Seq<char>, rel: Seq<char>) -> Seq<char> {
    if dir.len() > 0 && dir.last() == '/' {
        dir + rel
    } else {
        dir + seq!['/'] + rel
    }
}

/// The install path for a given home directory.
pub open spec fn spec_cli_install_path(home: Seq<char>) -> Seq<char> {
    spec_path_join(spec_path_join(home, ".opencode/bin"@), "opencode"@)
}

/// Joins a directory and a relative segment with a separator.
pub fn path_join(dir: &str, rel: &str) -> (r: String)
    ensures
        r@ == spec_path_join(dir@, rel@),
{
    proof {
        reveal_strlit("/");
    }
    let n = dir.unicode_len();
    let mut out = String::from_str(dir);
    if !(n > 0 && dir.get_char(n - 1) == '/') {
        out.append("/");
    }
    out.append(rel);
    out
}

/// Where the binary is installed under a home directory.
pub fn cli_install_path(home: &str) -> (r: String)
    ensures
        r@ == spec_cli_install_path(home@),
{
    let base = path_join(home, ".opencode/bin");
    path_join(base.as_str(), "opencode")
}

/// Whether the binary counts as installed: the caller reports whether
/// the install path exists on disk, and nothing at all when no home
/// directory is known — in which case nothing is installed.
pub fn is_cli_installed(install_path_exists: Option<bool>) -> (r: bool)
    ensures
        r == (install_path_exists == Some(true)),
{
    match install_path_exists {
        Some(b) => b,
        None => false,
    }
}

} // verus!
