//! The recognized configuration filenames, in precedence order, and the
//! joining of a directory with a filename.

use vstd::prelude::*;
use vstd::string::StringExecFns;

verus! {

/// The filename of one of the six `.releaserc` dotfile candidates, for
/// `0 <= i < 6`, in the order in which they are probed.
pub open spec fn releaserc_name(i: int) -> Seq<char> {
    if i == 0 {
        ".releaserc"@
    } else if i == 1 {
        ".releaserc.yaml"@
    } else if i == 2 {
        ".releaserc.yml"@
    } else if i == 3 {
        ".releaserc.json"@
    } else if i == 4 {
        ".releaserc.js"@
    } else {
        ".releaserc.cjs"@
    }
}

/// The filename of one of the two `release.config` candidates, for
/// `0 <= i < 2`, in the order in which they are probed.
pub open spec fn release_config_name(i: int) -> Seq<char> {
    if i == 0 {
        "release.config.js"@
    } else {
        "release.config.cjs"@
    }
}

/// The filename of the package manifest, probed last.
pub open spec fn manifest_name() -> Seq<char> {
    "package.json"@
}

/// The filename of the `i`-th recognized candidate, for `0 <= i < 9`,
/// over all three probes in precedence order.
pub open spec fn candidate_name(i: int) -> Seq<char> {
    if 0 <= i < 6 {
        releaserc_name(i)
    } else if i == 6 || i == 7 {
        release_config_name(i - 6)
    } else {
        manifest_name()
    }
}

/// A directory joined with a filename: the two separated by `/`.
pub open spec fn join_seq(directory: Seq<char>, name: Seq<char>) -> Seq<char> {
    directory + "/"@ + name
}

/// Join a directory with a filename, separated by `/`.
///
/// The separator is always inserted: an empty directory yields `/{name}`,
/// and a directory with a trailing `/` yields a doubled separator, which the
/// filesystem reads the same way.
pub fn join_path(directory: &str, name: &str) -> (r: String)
    ensures
        r@ == join_seq(directory@, name@),
{
    let mut path = directory.to_owned();
    path.append("/");
    path.append(name);
    path
}

/// The six `.releaserc` dotfile candidates, in precedence order.
pub(crate) fn releaserc_filenames() -> (r: Vec<&'static str>)
    ensures
        r@.len() == 6,
        forall|i: int| 0 <= i < 6 ==> (#[trigger] r@[i])@ == releaserc_name(i),
{
    let names: Vec<&'static str> = vec![
        ".releaserc",
        ".releaserc.yaml",
        ".releaserc.yml",
        ".releaserc.json",
        ".releaserc.js",
        ".releaserc.cjs",
    ];
    assert forall|i: int| 0 <= i < 6 implies (#[trigger] names@[i])@ == releaserc_name(i) by {
        if i == 0 {
        } else if i == 1 {
        } else if i == 2 {
        } else if i == 3 {
        } else if i == 4 {
        } else {
        }
    }
    names
}

/// The two `release.config` candidates, in precedence order.
pub(crate) fn release_config_filenames() -> (r: Vec<&'static str>)
    ensures
        r@.len() == 2,
        forall|i: int| 0 <= i < 2 ==> (#[trigger] r@[i])@ == release_config_name(i),
{
    let names: Vec<&'static str> = vec!["release.config.js", "release.config.cjs"];
    assert forall|i: int| 0 <= i < 2 implies (#[trigger] names@[i])@ == release_config_name(i) by {
        if i == 0 {
        } else {
        }
    }
    names
}

} // verus!
