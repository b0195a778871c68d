//! Construction of the salt-file path under the app-local data directory.

use vstd::prelude::*;
use vstd::string::*;

verus! {

/// The salt-file path for a resolved app-local data directory: the directory
/// joined with the fixed file name `salt.txt`. A separator is inserted unless
/// the directory already ends with one.
pub open spec fn spec_salt_path(dir: Seq<char>) -> Seq<char> {
    if dir.len() > 0 && dir.last() == '/' {
        dir + "salt.txt"@
    } else {
        dir + "/salt.txt"@
    }
}

/// Builds the salt-file path for the resolved app-local data directory `dir`.
pub fn salt_path_in(dir: &str) -> (r: String)
    ensures
        r@ == spec_salt_path(dir@),
{
    let n: usize = dir.unicode_len();
    if n > 0 && dir.get_char(n - 1) == '/' {
        String::from_str(dir).concat("salt.txt")
    } else {
        String::from_str(dir).concat("/salt.txt")
    }
}

} // verus!
