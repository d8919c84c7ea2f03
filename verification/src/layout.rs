//! What a descriptor set layout says of each binding.

use crate::resource::Sampler;
use std::sync::Arc;
use vstd::prelude::*;

verus! {

/// The type of the descriptors of a binding.
#[derive(Clone, Copy, Debug, PartialEq, Eq)]
pub enum DescriptorType {
    Sampler,
    CombinedImageSampler,
    SampledImage,
    StorageImage,
    UniformTexelBuffer,
    StorageTexelBuffer,
    UniformBuffer,
    StorageBuffer,
    UniformBufferDynamic,
    StorageBufferDynamic,
    InputAttachment,
}

/// The description of one binding of a layout.
pub struct DescriptorDesc {
    /// The type of the binding's descriptors.
    pub ty: DescriptorType,
    /// How many descriptors the binding has, unless `variable_count` is set.
    pub descriptor_count: u32,
    /// Whether the number of descriptors is chosen when a set is made.
    pub variable_count: bool,
    /// Samplers that are part of the layout itself. Where there are any, no
    /// sampler can be written to the binding.
    pub immutable_samplers: Vec<Arc<Sampler>>,
}

/// A descriptor set layout.
pub struct DescriptorSetLayout {
    /// The bindings by number. A number that the layout does not define holds
    /// `None`.
    pub bindings: Vec<Option<DescriptorDesc>>,
    /// The largest number of descriptors that a set of this layout may give to a
    /// binding with `variable_count`.
    pub variable_descriptor_count: u32,
}

impl DescriptorDesc {
    /// The number of descriptors that the binding has in a set made with the
    /// given variable count.
    pub open spec fn count(&self, variable_descriptor_count: u32) -> nat {
        if self.variable_count {
            variable_descriptor_count as nat
        } else {
            self.descriptor_count as nat
        }
    }

    /// Whether the layout itself supplies the binding's samplers.
    pub open spec fn has_immutable_samplers(&self) -> bool {
        self.immutable_samplers@.len() > 0
    }
}

impl DescriptorSetLayout {
    /// Binding numbers are 32 bits wide, so a layout has room for no more
    /// bindings than there are such numbers.
    pub open spec fn wf(&self) -> bool {
        self.bindings@.len() <= 0x1_0000_0000
    }

    /// Whether the layout defines the binding with the given number.
    pub open spec fn defines(&self, binding: u32) -> bool {
        binding < self.bindings@.len() && self.bindings@[binding as int] is Some
    }

    /// The description of a binding that the layout defines.
    pub open spec fn desc(&self, binding: u32) -> DescriptorDesc
        recommends
            self.defines(binding),
    {
        self.bindings@[binding as int]->0
    }
}

} // verus!
