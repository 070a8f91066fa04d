use vstd::prelude::*;

use crate::placement::Position;

verus! {

/// Why a request to the pager was refused.
#[derive(Clone, Copy, Debug, PartialEq, Eq, Structural)]
pub enum PagerError {
    /// No rendering context has been installed yet.
    NotInitialized,
    /// The step count is zero.
    InvalidParameter,
    /// The bytes given for this image are not an image that can be decoded.
    Decode(Position),
}

} // verus!
