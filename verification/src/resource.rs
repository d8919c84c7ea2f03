//! The resource objects that descriptors refer to, and how a handle to one is
//! shared.

use std::sync::Arc;
use vstd::prelude::*;

verus! {

/// A buffer, known by the handle that the device gave it.
#[derive(Debug, PartialEq, Eq)]
pub struct Buffer {
    pub handle: u64,
}

/// A view of a texel buffer, known by the handle that the device gave it.
#[derive(Debug, PartialEq, Eq)]
pub struct BufferView {
    pub handle: u64,
}

/// A view of an image, known by the handle that the device gave it.
#[derive(Debug, PartialEq, Eq)]
pub struct ImageView {
    pub handle: u64,
}

/// A sampler, known by the handle that the device gave it.
#[derive(Debug, PartialEq, Eq)]
pub struct Sampler {
    pub handle: u64,
}

/// Calls `Arc::clone`, which hands out one more pointer to the same allocation and
/// counts it. The new pointer refers to the value that `handle` refers to.
#[verifier::external_body]
fn clone_arc<T>(handle: &Arc<T>) -> (other: Arc<T>)
    ensures
        other == *handle,
{
    Arc::clone(handle)
}

/// A value that stands for a resource and can be handed on without copying the
/// resource itself.
pub(crate) trait Handle: Sized {
    /// Another handle to the same resource.
    fn share(&self) -> (other: Self)
        ensures
            other == *self,
    ;
}

impl<T> Handle for Arc<T> {
    fn share(&self) -> (other: Self) {
        clone_arc(self)
    }
}

impl<A: Handle, B: Handle> Handle for (A, B) {
    fn share(&self) -> (other: Self) {
        (self.0.share(), self.1.share())
    }
}

} // verus!
