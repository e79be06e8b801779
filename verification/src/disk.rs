//! Trusted access to the filesystem: an existence check, and the opening and
//! reading of a file. Every outcome depends on the state of the disk, so no
//! contract here promises a particular result; the callers state what holds
//! whatever came back.

use std::io::Read;

use vstd::prelude::*;

verus! {

/// Relies on std::path::Path::exists: whether the filesystem entity at `path`
/// can be confirmed to exist. A directory counts, and any failure of the
/// underlying metadata query reads as absence.
#[verifier::external_body]
pub(crate) fn path_exists(path: &str) -> bool {
    std::path::Path::new(path).exists()
}

/// Relies on fs_err::File::open: a read-only handle to the file at `path`, or
/// the underlying I/O error.
#[verifier::external_body]
pub(crate) fn open_file(path: &str) -> Result<fs_err::File, std::io::Error> {
    fs_err::File::open(path)
}

/// Relies on std::io::Read::read_to_string: the file's contents as text, or
/// the underlying I/O error.
#[verifier::external_body]
pub(crate) fn read_file_to_string(file: &mut fs_err::File) -> Result<String, std::io::Error> {
    let mut text = String::new();
    match file.read_to_string(&mut text) {
        Ok(_) => Ok(text),
        Err(error) => Err(error),
    }
}

} // verus!
