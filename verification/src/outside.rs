//! Outside types that values of the library carry.

use vstd::prelude::*;
use ureq::Error as UreqError;

verus! {

/// std's I/O error, carried through unchanged.
#[verifier::external_type_specification]
#[verifier::external_body]
pub struct ExIoError(std::io::Error);

/// std's integer parse error, carried through unchanged.
#[verifier::external_type_specification]
#[verifier::external_body]
pub struct ExParseIntError(std::num::ParseIntError);

/// ureq's request error, carried through unchanged.
#[verifier::external_type_specification]
#[verifier::external_body]
pub struct ExUreqError(UreqError);

} // verus!
