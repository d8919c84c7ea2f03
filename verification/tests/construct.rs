use descriptor_resources::{
    DescriptorBindingResources, DescriptorDesc, DescriptorSetLayout, DescriptorSetResources,
    DescriptorType, Sampler,
};
use std::sync::Arc;

fn desc_of(ty: DescriptorType, descriptor_count: u32) -> DescriptorDesc {
    DescriptorDesc { ty, descriptor_count, variable_count: false, immutable_samplers: Vec::new() }
}

fn desc_with_samplers(ty: DescriptorType, samplers: u64) -> DescriptorDesc {
    let mut immutable_samplers = Vec::new();
    for handle in 0..samplers {
        immutable_samplers.push(Arc::new(Sampler { handle: 100 + handle }));
    }
    DescriptorDesc { ty, descriptor_count: samplers as u32, variable_count: false, immutable_samplers }
}

fn single_binding(desc: DescriptorDesc) -> DescriptorSetResources {
    let layout = DescriptorSetLayout { bindings: vec![Some(desc)], variable_descriptor_count: 0 };
    DescriptorSetResources::new(&layout, 0)
}

/// The number of descriptors of a binding, or `None` where nothing can be written.
fn len_of(resources: &DescriptorBindingResources) -> Option<usize> {
    match resources {
        DescriptorBindingResources::Nothing => None,
        DescriptorBindingResources::Buffer(list) => Some(list.as_slice().len()),
        DescriptorBindingResources::BufferView(list) => Some(list.as_slice().len()),
        DescriptorBindingResources::ImageView(list) => Some(list.as_slice().len()),
        DescriptorBindingResources::ImageViewSampler(list) => Some(list.as_slice().len()),
        DescriptorBindingResources::Sampler(list) => Some(list.as_slice().len()),
    }
}

/// Whether every descriptor of a binding is unset.
fn all_unset(resources: &DescriptorBindingResources) -> bool {
    match resources {
        DescriptorBindingResources::Nothing => true,
        DescriptorBindingResources::Buffer(list) => list.as_slice().iter().all(|e| e.is_none()),
        DescriptorBindingResources::BufferView(list) => list.as_slice().iter().all(|e| e.is_none()),
        DescriptorBindingResources::ImageView(list) => list.as_slice().iter().all(|e| e.is_none()),
        DescriptorBindingResources::ImageViewSampler(list) => {
            list.as_slice().iter().all(|e| e.is_none())
        }
        DescriptorBindingResources::Sampler(list) => list.as_slice().iter().all(|e| e.is_none()),
    }
}

#[test]
fn new_has_exactly_the_bindings_of_the_layout() {
    let layout = DescriptorSetLayout {
        bindings: vec![
            Some(desc_of(DescriptorType::UniformBuffer, 2)),
            None,
            Some(desc_of(DescriptorType::SampledImage, 3)),
            None,
            None,
            Some(desc_of(DescriptorType::Sampler, 1)),
        ],
        variable_descriptor_count: 0,
    };
    let set = DescriptorSetResources::new(&layout, 0);
    assert!(set.binding(0).is_some());
    assert!(set.binding(1).is_none());
    assert!(set.binding(2).is_some());
    assert!(set.binding(3).is_none());
    assert!(set.binding(4).is_none());
    assert!(set.binding(5).is_some());
    assert!(set.binding(6).is_none());
    assert!(set.binding(u32::MAX).is_none());
}

#[test]
fn new_gives_each_binding_its_count_and_leaves_it_unset() {
    let layout = DescriptorSetLayout {
        bindings: vec![
            Some(desc_of(DescriptorType::UniformBuffer, 2)),
            None,
            Some(desc_of(DescriptorType::SampledImage, 3)),
            Some(desc_of(DescriptorType::StorageTexelBuffer, 0)),
            Some(desc_of(DescriptorType::CombinedImageSampler, 7)),
            Some(desc_of(DescriptorType::Sampler, 1)),
        ],
        variable_descriptor_count: 0,
    };
    let set = DescriptorSetResources::new(&layout, 0);
    let expected = [(0u32, 2usize), (2, 3), (3, 0), (4, 7), (5, 1)];
    for (binding, count) in expected {
        let resources = set.binding(binding).unwrap();
        assert_eq!(len_of(resources), Some(count));
        assert!(all_unset(resources));
    }
}

#[test]
fn new_of_an_empty_layout_has_no_binding() {
    let layout = DescriptorSetLayout { bindings: Vec::new(), variable_descriptor_count: 0 };
    let set = DescriptorSetResources::new(&layout, 0);
    assert!(set.binding(0).is_none());
}

#[test]
fn new_of_a_layout_that_defines_nothing_has_no_binding() {
    let layout = DescriptorSetLayout { bindings: vec![None, None], variable_descriptor_count: 0 };
    let set = DescriptorSetResources::new(&layout, 0);
    assert!(set.binding(0).is_none());
    assert!(set.binding(1).is_none());
}

#[test]
fn variable_count_binding_takes_the_count_of_the_set() {
    let layout = DescriptorSetLayout {
        bindings: vec![
            Some(desc_of(DescriptorType::StorageBuffer, 4)),
            Some(DescriptorDesc {
                ty: DescriptorType::SampledImage,
                descriptor_count: 16,
                variable_count: true,
                immutable_samplers: Vec::new(),
            }),
        ],
        variable_descriptor_count: 16,
    };
    let set = DescriptorSetResources::new(&layout, 9);
    assert_eq!(len_of(set.binding(0).unwrap()), Some(4));
    assert_eq!(len_of(set.binding(1).unwrap()), Some(9));
}

#[test]
fn variable_count_may_be_zero_or_the_maximum() {
    let layout = DescriptorSetLayout {
        bindings: vec![Some(DescriptorDesc {
            ty: DescriptorType::UniformBuffer,
            descriptor_count: 5,
            variable_count: true,
            immutable_samplers: Vec::new(),
        })],
        variable_descriptor_count: 5,
    };
    let none = DescriptorSetResources::new(&layout, 0);
    assert_eq!(len_of(none.binding(0).unwrap()), Some(0));
    let all = DescriptorSetResources::new(&layout, 5);
    assert_eq!(len_of(all.binding(0).unwrap()), Some(5));
}

#[test]
fn uniform_buffer_binding_holds_buffers() {
    let set = single_binding(desc_of(DescriptorType::UniformBuffer, 1));
    assert!(matches!(set.binding(0), Some(DescriptorBindingResources::Buffer(_))));
}

#[test]
fn storage_buffer_binding_holds_buffers() {
    let set = single_binding(desc_of(DescriptorType::StorageBuffer, 1));
    assert!(matches!(set.binding(0), Some(DescriptorBindingResources::Buffer(_))));
}

#[test]
fn uniform_buffer_dynamic_binding_holds_buffers() {
    let set = single_binding(desc_of(DescriptorType::UniformBufferDynamic, 1));
    assert!(matches!(set.binding(0), Some(DescriptorBindingResources::Buffer(_))));
}

#[test]
fn storage_buffer_dynamic_binding_holds_buffers() {
    let set = single_binding(desc_of(DescriptorType::StorageBufferDynamic, 1));
    assert!(matches!(set.binding(0), Some(DescriptorBindingResources::Buffer(_))));
}

#[test]
fn uniform_texel_buffer_binding_holds_buffer_views() {
    let set = single_binding(desc_of(DescriptorType::UniformTexelBuffer, 1));
    assert!(matches!(set.binding(0), Some(DescriptorBindingResources::BufferView(_))));
}

#[test]
fn storage_texel_buffer_binding_holds_buffer_views() {
    let set = single_binding(desc_of(DescriptorType::StorageTexelBuffer, 1));
    assert!(matches!(set.binding(0), Some(DescriptorBindingResources::BufferView(_))));
}

#[test]
fn sampled_image_binding_holds_image_views() {
    let set = single_binding(desc_of(DescriptorType::SampledImage, 1));
    assert!(matches!(set.binding(0), Some(DescriptorBindingResources::ImageView(_))));
}

#[test]
fn storage_image_binding_holds_image_views() {
    let set = single_binding(desc_of(DescriptorType::StorageImage, 1));
    assert!(matches!(set.binding(0), Some(DescriptorBindingResources::ImageView(_))));
}

#[test]
fn input_attachment_binding_holds_image_views() {
    let set = single_binding(desc_of(DescriptorType::InputAttachment, 1));
    assert!(matches!(set.binding(0), Some(DescriptorBindingResources::ImageView(_))));
}

#[test]
fn combined_image_sampler_binding_holds_pairs() {
    let set = single_binding(desc_of(DescriptorType::CombinedImageSampler, 2));
    let resources = set.binding(0).unwrap();
    assert!(matches!(resources, DescriptorBindingResources::ImageViewSampler(_)));
    assert_eq!(len_of(resources), Some(2));
}

#[test]
fn combined_image_sampler_binding_with_immutable_samplers_holds_image_views() {
    let set = single_binding(desc_with_samplers(DescriptorType::CombinedImageSampler, 2));
    let resources = set.binding(0).unwrap();
    assert!(matches!(resources, DescriptorBindingResources::ImageView(_)));
    assert_eq!(len_of(resources), Some(2));
    assert!(all_unset(resources));
}

#[test]
fn sampler_binding_holds_samplers() {
    let set = single_binding(desc_of(DescriptorType::Sampler, 3));
    let resources = set.binding(0).unwrap();
    assert!(matches!(resources, DescriptorBindingResources::Sampler(_)));
    assert_eq!(len_of(resources), Some(3));
}

#[test]
fn sampler_binding_with_immutable_samplers_holds_nothing() {
    let set = single_binding(desc_with_samplers(DescriptorType::Sampler, 2));
    assert!(matches!(set.binding(0), Some(DescriptorBindingResources::Nothing)));
}

#[test]
fn immutable_samplers_do_not_matter_to_other_types() {
    let set = single_binding(desc_with_samplers(DescriptorType::SampledImage, 1));
    assert!(matches!(set.binding(0), Some(DescriptorBindingResources::ImageView(_))));
    let set = single_binding(desc_with_samplers(DescriptorType::UniformBuffer, 1));
    assert!(matches!(set.binding(0), Some(DescriptorBindingResources::Buffer(_))));
}

#[test]
fn long_list_is_unset_throughout() {
    let set = single_binding(desc_of(DescriptorType::StorageBuffer, 1000));
    let resources = set.binding(0).unwrap();
    assert_eq!(len_of(resources), Some(1000));
    assert!(all_unset(resources));
}
