//! Declarations of the kurbo value types that the trusted wrappers carry
//! through their signatures; the library treats them as opaque.

use vstd::prelude::*;

verus! {

#[verifier::external_type_specification]
#[verifier::external_body]
pub struct ExKurboPoint(kurbo::Point);

#[verifier::external_type_specification]
#[verifier::external_body]
pub struct ExKurboPathSeg(kurbo::PathSeg);

} // verus!
