//! The version that the program reports of itself.

use vstd::prelude::*;
use vstd::string::*;

verus! {

/// The reported version: the version of the package alone where the build
/// knows no commit, else followed in parentheses by the commit and the date
/// of the build.
pub open spec fn version_text(
    package_version: Seq<char>,
    git_commit_hash: Seq<char>,
    build_date: Seq<char>,
) -> Seq<char> {
    if git_commit_hash.len() == 0 {
        package_version
    } else {
        package_version + " ("@ + git_commit_hash + " "@ + build_date + ")"@
    }
}

/// The version that the program reports of itself.
pub fn version(package_version: &str, git_commit_hash: &str, build_date: &str) -> (r: String)
    ensures
        r@ == version_text(package_version@, git_commit_hash@, build_date@),
{
    if git_commit_hash.unicode_len() == 0 {
        package_version.to_owned()
    } else {
        let mut text = package_version.to_owned();
        text.append(" (");
        text.append(git_commit_hash);
        text.append(" ");
        text.append(build_date);
        text.append(")");
        text
    }
}

} // verus!
