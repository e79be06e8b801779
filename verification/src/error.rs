//! The errors that the manifest probe can surface.
//!
//! Absence of a file is never an error; these arise only after `package.json`
//! was confirmed to exist. Each carries the offending path and the underlying
//! cause.

use vstd::prelude::*;

verus! {

/// A failure of the manifest probe, carrying the path it failed on and the
/// underlying cause.
#[derive(Debug)]
#[allow(inconsistent_fields)]
pub enum LocateError {
    /// Unable to open file
    FileOpenError { source: std::io::Error, path: String },
    /// Unable to read file
    FileReadError { source: std::io::Error, path: String },
    /// Unable to parse file
    FileParseError { source: serde_json::Error, path: String },
}

impl LocateError {
    /// The path on which the probe failed.
    pub open spec fn spec_path(&self) -> Seq<char> {
        match self {
            LocateError::FileOpenError { source: _, path } => path@,
            LocateError::FileReadError { source: _, path } => path@,
            LocateError::FileParseError { source: _, path } => path@,
        }
    }

    pub(crate) fn file_open_error(source: std::io::Error, path: &str) -> (r: Self)
        ensures
            (r matches LocateError::FileOpenError { source: s, path: p } && s == source && p@
                == path@),
    {
        LocateError::FileOpenError { source, path: path.to_owned() }
    }

    pub(crate) fn file_read_error(source: std::io::Error, path: &str) -> (r: Self)
        ensures
            (r matches LocateError::FileReadError { source: s, path: p } && s == source && p@
                == path@),
    {
        LocateError::FileReadError { source, path: path.to_owned() }
    }

    pub(crate) fn file_parse_error(source: serde_json::Error, path: &str) -> (r: Self)
        ensures
            (r matches LocateError::FileParseError { source: s, path: p } && s == source && p@
                == path@),
    {
        LocateError::FileParseError { source, path: path.to_owned() }
    }
}

} // verus!
