//! Requests to write resources to the descriptors of a binding.

use crate::resource::{Buffer, BufferView, ImageView, Sampler};
use std::sync::Arc;
use vstd::prelude::*;

verus! {

/// The resources of a write, all of one category.
pub enum DescriptorWriteElements {
    Buffer(Vec<Arc<Buffer>>),
    BufferView(Vec<Arc<BufferView>>),
    ImageView(Vec<Arc<ImageView>>),
    ImageViewSampler(Vec<(Arc<ImageView>, Arc<Sampler>)>),
    Sampler(Vec<Arc<Sampler>>),
}

/// A request to write `elements` to consecutive descriptors of the binding
/// `binding_num`, the first of them at index `first_array_element`.
pub struct DescriptorWrite {
    pub binding_num: u32,
    pub first_array_element: u32,
    pub elements: DescriptorWriteElements,
}

impl DescriptorWriteElements {
    /// The number of resources.
    pub open spec fn len(&self) -> nat {
        match self {
            DescriptorWriteElements::Buffer(elements) => elements@.len(),
            DescriptorWriteElements::BufferView(elements) => elements@.len(),
            DescriptorWriteElements::ImageView(elements) => elements@.len(),
            DescriptorWriteElements::ImageViewSampler(elements) => elements@.len(),
            DescriptorWriteElements::Sampler(elements) => elements@.len(),
        }
    }
}

impl DescriptorWrite {
    /// The index of the first descriptor that the write sets.
    pub open spec fn first(&self) -> int {
        self.first_array_element as int
    }

    /// The index after the last descriptor that the write sets.
    pub open spec fn end(&self) -> int {
        self.first_array_element + self.elements.len()
    }

    /// Whether the write sets the descriptor at `index`.
    pub open spec fn covers(&self, index: int) -> bool {
        self.first() <= index < self.end()
    }
}

} // verus!
