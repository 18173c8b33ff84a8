//! The closed list of scalar kinds that an input can be read as.
use vstd::prelude::*;

verus! {

/// Implemented only here, so that no other crate can add a scalar kind.
pub trait Scalar {

}

impl Scalar for String {

}

impl Scalar for bool {

}

impl Scalar for i32 {

}

impl Scalar for u32 {

}

impl Scalar for i64 {

}

impl Scalar for u64 {

}

} // verus!
