//! The resources that are bound to a descriptor set, and to each of its bindings.

use crate::elements::{
    buffer_elements, buffer_view_elements, buffer_views_mut, buffers_mut, image_view_elements,
    image_view_sampler_elements, image_view_samplers_mut, image_views_mut, sampler_elements,
    samplers_mut, unset_buffer_views, unset_buffers, unset_image_view_samplers,
    unset_image_views, unset_samplers, Elements,
};
use crate::error::DescriptorUpdateError;
use crate::layout::{DescriptorDesc, DescriptorSetLayout, DescriptorType};
use crate::model::{
    apply_write, apply_writes, check_write, check_writes, written, BindingView, SetView,
};
use crate::resource::{Buffer, BufferView, Handle, ImageView, Sampler};
use crate::table;
use crate::write::{DescriptorWrite, DescriptorWriteElements};
use fnv::FnvHashMap;
use std::sync::Arc;
use vstd::prelude::*;

verus! {

/// The resources that are bound to a descriptor set.
pub struct DescriptorSetResources {
    descriptors: FnvHashMap<u32, DescriptorBindingResources>,
}

/// What a map from binding numbers to resources holds.
spec fn set_view(descriptors: Map<u32, DescriptorBindingResources>) -> SetView {
    Map::new(|binding: u32| descriptors.contains_key(binding), |binding: u32| descriptors[binding]@)
}

impl View for DescriptorSetResources {
    type V = SetView;

    closed spec fn view(&self) -> SetView {
        set_view(self.descriptors@)
    }
}

impl DescriptorSetResources {
    /// Creates a new `DescriptorSetResources` matching the provided descriptor set
    /// layout, with all descriptors unset.
    ///
    /// `variable_descriptor_count` is the number of descriptors of a binding whose
    /// count is variable. It must not be larger than the layout allows.
    pub fn new(layout: &DescriptorSetLayout, variable_descriptor_count: u32) -> (resources: Self)
        requires
            layout.wf(),
            variable_descriptor_count <= layout.variable_descriptor_count,
        ensures
            resources@ == layout.new_set(variable_descriptor_count),
    {
        let mut descriptors: FnvHashMap<u32, DescriptorBindingResources> = FnvHashMap::default();
        let mut b: usize = 0;
        while b < layout.bindings.len()
            invariant
                layout.wf(),
                b <= layout.bindings@.len(),
                forall|binding: u32| #[trigger]
                    descriptors@.contains_key(binding) <==> binding < b && layout.defines(binding),
                forall|binding: u32| #[trigger]
                    descriptors@.contains_key(binding) ==> descriptors@[binding]@
                        == BindingView::unset(
                        layout.desc(binding).kind(),
                        layout.desc(binding).count(variable_descriptor_count),
                    ),
            decreases layout.bindings@.len() - b,
        {
            if let Some(binding_desc) = &layout.bindings[b] {
                let binding_resources = DescriptorBindingResources::new(
                    binding_desc,
                    variable_descriptor_count,
                );
                table::insert(&mut descriptors, b as u32, binding_resources);
            }
            b += 1;
        }
        assert(set_view(descriptors@) =~= layout.new_set(variable_descriptor_count));
        Self { descriptors }
    }

    /// Applies descriptor writes to the resources, one after the other.
    ///
    /// Stops at the first write that is refused, because the set has no binding of
    /// its number or because the binding refuses it (see
    /// [`DescriptorBindingResources::update`]), and returns why. The writes before
    /// that one stay applied; that one and those after it change nothing.
    pub fn update(&mut self, writes: &[DescriptorWrite]) -> (result: Result<
        (),
        DescriptorUpdateError,
    >)
        ensures
            result == check_writes(old(self)@, writes@),
            final(self)@ == apply_writes(old(self)@, writes@),
    {
        let mut i: usize = 0;
        assert(writes@.skip(0) == writes@);
        while i < writes.len()
            invariant
                i <= writes@.len(),
                check_writes(old(self)@, writes@) == check_writes(self@, writes@.skip(i as int)),
                apply_writes(old(self)@, writes@) == apply_writes(self@, writes@.skip(i as int)),
            decreases writes@.len() - i,
        {
            let write = &writes[i];
            let ghost before = self@;
            assert(writes@.skip(i as int)[0] == *write);
            assert(writes@.skip(i as int).skip(1) == writes@.skip(i + 1));
            match table::get_mut(&mut self.descriptors, write.binding_num) {
                Some(resources) => {
                    let result = resources.update(write);
                    assert(self@ == apply_write(before, *write));
                    if let Err(error) = result {
                        return Err(error);
                    }
                },
                None => {
                    return Err(
                        DescriptorUpdateError::UnknownBinding { binding: write.binding_num },
                    );
                },
            }
            i += 1;
        }
        Ok(())
    }

    /// Returns a reference to the bound resources for `binding`. Returns `None` if
    /// the binding doesn't exist.
    pub fn binding(&self, binding: u32) -> (resources: Option<&DescriptorBindingResources>)
        ensures
            self@.contains_key(binding) ==> resources is Some && resources.unwrap()@
                == self@[binding],
            !self@.contains_key(binding) ==> resources is None,
    {
        table::get(&self.descriptors, binding)
    }
}

/// The resources that are bound to a single descriptor set binding.
pub enum DescriptorBindingResources {
    /// Nothing can be written to the binding: its samplers are part of the layout.
    Nothing,
    Buffer(Elements<Arc<Buffer>>),
    BufferView(Elements<Arc<BufferView>>),
    ImageView(Elements<Arc<ImageView>>),
    ImageViewSampler(Elements<(Arc<ImageView>, Arc<Sampler>)>),
    Sampler(Elements<Arc<Sampler>>),
}

impl View for DescriptorBindingResources {
    type V = BindingView;

    open spec fn view(&self) -> BindingView {
        match self {
            DescriptorBindingResources::Nothing => BindingView::Nothing,
            DescriptorBindingResources::Buffer(list) => BindingView::Buffer(buffer_elements(*list)),
            DescriptorBindingResources::BufferView(list) => BindingView::BufferView(
                buffer_view_elements(*list),
            ),
            DescriptorBindingResources::ImageView(list) => BindingView::ImageView(
                image_view_elements(*list),
            ),
            DescriptorBindingResources::ImageViewSampler(list) => BindingView::ImageViewSampler(
                image_view_sampler_elements(*list),
            ),
            DescriptorBindingResources::Sampler(list) => BindingView::Sampler(
                sampler_elements(*list),
            ),
        }
    }
}

/// Writes a handle to each of `elements` to `resources`, from index `first` on,
/// unless they do not all fit; then nothing is written.
fn write_resources<T: Handle>(
    binding: u32,
    first: usize,
    resources: &mut [Option<T>],
    elements: &[T],
) -> (result: Result<(), DescriptorUpdateError>)
    ensures
        result == (if first + elements@.len() <= old(resources)@.len() {
            Ok(())
        } else {
            Err(DescriptorUpdateError::OutOfBounds { binding })
        }),
        final(resources)@ == (if result is Ok {
            written(old(resources)@, first as int, elements@)
        } else {
            old(resources)@
        }),
{
    let count = elements.len();
    let len = resources.len();
    if count > len || first > len - count {
        return Err(DescriptorUpdateError::OutOfBounds { binding });
    }
    let mut i: usize = 0;
    while i < count
        invariant
            i <= count == elements@.len(),
            first + count <= len == resources@.len() == old(resources)@.len(),
            resources@ == written(old(resources)@, first as int, elements@.take(i as int)),
        decreases count - i,
    {
        resources[first + i] = Some(elements[i].share());
        i += 1;
    }
    assert(elements@.take(count as int) == elements@);
    Ok(())
}

impl DescriptorBindingResources {
    /// Creates the resources of a binding with the given description, with all
    /// descriptors unset.
    ///
    /// The binding has `variable_descriptor_count` descriptors if its count is
    /// variable, else the count of its description. The category follows from the
    /// descriptor type. Where the description supplies immutable samplers, a
    /// binding of combined image samplers takes image views alone, and a binding
    /// of samplers takes nothing.
    pub fn new(binding_desc: &DescriptorDesc, variable_descriptor_count: u32) -> (resources: Self)
        ensures
            resources@ == BindingView::unset(
                binding_desc.kind(),
                binding_desc.count(variable_descriptor_count),
            ),
    {
        let count = if binding_desc.variable_count {
            variable_descriptor_count
        } else {
            binding_desc.descriptor_count
        } as usize;

        match binding_desc.ty {
            DescriptorType::UniformBuffer
            | DescriptorType::StorageBuffer
            | DescriptorType::UniformBufferDynamic
            | DescriptorType::StorageBufferDynamic => {
                DescriptorBindingResources::Buffer(unset_buffers(count))
            },
            DescriptorType::UniformTexelBuffer | DescriptorType::StorageTexelBuffer => {
                DescriptorBindingResources::BufferView(unset_buffer_views(count))
            },
            DescriptorType::SampledImage
            | DescriptorType::StorageImage
            | DescriptorType::InputAttachment => {
                DescriptorBindingResources::ImageView(unset_image_views(count))
            },
            DescriptorType::CombinedImageSampler => {
                if binding_desc.immutable_samplers.is_empty() {
                    DescriptorBindingResources::ImageViewSampler(unset_image_view_samplers(count))
                } else {
                    DescriptorBindingResources::ImageView(unset_image_views(count))
                }
            },
            DescriptorType::Sampler => {
                if binding_desc.immutable_samplers.is_empty() {
                    DescriptorBindingResources::Sampler(unset_samplers(count))
                } else {
                    DescriptorBindingResources::Nothing
                }
            },
        }
    }

    /// Applies a descriptor write to the resources.
    ///
    /// The write is refused, and the resources stay as they are, if its resources
    /// are not of the category that the binding holds, or if it reaches past the
    /// last descriptor of the binding.
    pub fn update(&mut self, write: &DescriptorWrite) -> (result: Result<(), DescriptorUpdateError>)
        ensures
            result == old(self)@.check(*write),
            final(self)@ == old(self)@.updated(*write),
    {
        let binding = write.binding_num;
        let first = write.first_array_element as usize;
        match self {
            DescriptorBindingResources::Buffer(resources) => {
                if let DescriptorWriteElements::Buffer(elements) = &write.elements {
                    return write_resources(binding, first, buffers_mut(resources), elements);
                }
            },
            DescriptorBindingResources::BufferView(resources) => {
                if let DescriptorWriteElements::BufferView(elements) = &write.elements {
                    return write_resources(binding, first, buffer_views_mut(resources), elements);
                }
            },
            DescriptorBindingResources::ImageView(resources) => {
                if let DescriptorWriteElements::ImageView(elements) = &write.elements {
                    return write_resources(binding, first, image_views_mut(resources), elements);
                }
            },
            DescriptorBindingResources::ImageViewSampler(resources) => {
                if let DescriptorWriteElements::ImageViewSampler(elements) = &write.elements {
                    return write_resources(
                        binding,
                        first,
                        image_view_samplers_mut(resources),
                        elements,
                    );
                }
            },
            DescriptorBindingResources::Sampler(resources) => {
                if let DescriptorWriteElements::Sampler(elements) = &write.elements {
                    return write_resources(binding, first, samplers_mut(resources), elements);
                }
            },
            DescriptorBindingResources::Nothing => {},
        }
        Err(DescriptorUpdateError::ResourceKindMismatch { binding })
    }
}

} // verus!
