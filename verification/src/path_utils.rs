//! Path text normalisation.

use vstd::prelude::*;

use crate::text::{copy_range, push_str, starts_with};

verus! {

/// `\\?\`, the prefix of a Windows verbatim path.
pub open spec fn verbatim_prefix() -> Seq<char> {
    seq!['\\', '\\', '?', '\\']
}

/// `\\?\UNC\`, the prefix of a Windows verbatim UNC path.
pub open spec fn verbatim_unc_prefix() -> Seq<char> {
    seq!['\\', '\\', '?', '\\', 'U', 'N', 'C', '\\']
}

/// The conventional form of a path: on Windows `\\?\UNC\server\share`
/// becomes `\\server\share` and `\\?\C:\dir` becomes `C:\dir`; anything
/// else, and every path on other platforms, is kept.
pub open spec fn spec_normalize_platform_path(path: Seq<char>, windows: bool) -> Seq<char> {
    if !windows {
        path
    } else if path.len() >= 8 && path.subrange(0, 8) == verbatim_unc_prefix() {
        seq!['\\', '\\'] + path.subrange(8, path.len() as int)
    } else if path.len() >= 4 && path.subrange(0, 4) == verbatim_prefix() {
        path.subrange(4, path.len() as int)
    } else {
        path
    }
}

/// Strips the verbatim prefix that canonicalisation gives Windows paths
/// (`windows` tells whether the platform is Windows).
pub fn normalize_platform_path(path: &str, windows: bool) -> (r: String)
    ensures
        r@ == spec_normalize_platform_path(path@, windows),
{
    proof {
        reveal_strlit("\\\\?\\UNC\\");
        reveal_strlit("\\\\?\\");
        reveal_strlit("\\\\");
    }
    let n = path.unicode_len();
    if !windows {
        return copy_range(path, 0, n);
    }
    if starts_with(path, "\\\\?\\UNC\\") {
        assert("\\\\?\\UNC\\"@ =~= verbatim_unc_prefix());
        let mut out = String::new();
        push_str(&mut out, "\\\\");
        let rest = copy_range(path, 8, n);
        push_str(&mut out, rest.as_str());
        return out;
    }
    assert("\\\\?\\UNC\\"@ =~= verbatim_unc_prefix());
    if starts_with(path, "\\\\?\\") {
        assert("\\\\?\\"@ =~= verbatim_prefix());
        return copy_range(path, 4, n);
    }
    assert("\\\\?\\"@ =~= verbatim_prefix());
    copy_range(path, 0, n)
}

} // verus!
