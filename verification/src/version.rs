//! The version string that the program reports.

use vstd::prelude::*;
use vstd::string::StringExecFns;

verus! {

/// The package version, a hyphen and the short commit; `-dirty` follows where
/// the working tree held changes when the program was built.
pub open spec fn version_of(pkg_version: Seq<char>, short_commit: Seq<char>, clean: bool) -> Seq<
    char,
> {
    pkg_version + seq!['-'] + short_commit + if clean {
        Seq::<char>::empty()
    } else {
        seq!['-', 'd', 'i', 'r', 't', 'y']
    }
}

/// The version string, computed once at startup and owned by whoever asks.
pub fn version(pkg_version: &str, short_commit: &str, clean: bool) -> (r: String)
    ensures
        r@ == version_of(pkg_version@, short_commit@, clean),
{
    proof {
        reveal_strlit("-");
        reveal_strlit("-dirty");
    }
    let mut out = String::from_str(pkg_version);
    out.append("-");
    out.append(short_commit);
    if !clean {
        out.append("-dirty");
    }
    assert("-"@ =~= seq!['-']);
    assert("-dirty"@ =~= seq!['-', 'd', 'i', 'r', 't', 'y']);
    assert(out@ =~= version_of(pkg_version@, short_commit@, clean));
    out
}

} // verus!
