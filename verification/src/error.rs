//! Why a write is refused.

use vstd::prelude::*;

verus! {

/// Why a write was refused.
#[derive(Clone, Copy, Debug, PartialEq, Eq)]
pub enum DescriptorUpdateError {
    /// The set has no binding with the number that the write names.
    UnknownBinding { binding: u32 },
    /// The resources of the write are not of the category that the binding holds.
    ResourceKindMismatch { binding: u32 },
    /// The write reaches past the last descriptor of the binding.
    OutOfBounds { binding: u32 },
}

} // verus!
