//! Declarations of the outside types that appear in signatures and fields:
//! the I/O error, the parser's error, and the file handle. Each is opaque;
//! the library only carries values of them through.

use vstd::prelude::*;

verus! {

#[verifier::external_type_specification]
#[verifier::external_body]
pub struct ExIoError(std::io::Error);

#[verifier::external_type_specification]
#[verifier::external_body]
pub struct ExJsonError(serde_json::Error);

#[verifier::external_type_specification]
#[verifier::external_body]
pub struct ExFile(fs_err::File);

} // verus!
