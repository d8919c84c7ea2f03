use descriptor_resources::{
    Buffer, DescriptorBindingResources, DescriptorDesc, DescriptorType, DescriptorUpdateError,
    DescriptorWrite, DescriptorWriteElements, ImageView, Sampler,
};
use std::sync::Arc;

fn buffer_binding(descriptor_count: u32) -> DescriptorBindingResources {
    let desc = DescriptorDesc {
        ty: DescriptorType::UniformBuffer,
        descriptor_count,
        variable_count: false,
        immutable_samplers: Vec::new(),
    };
    DescriptorBindingResources::new(&desc, 0)
}

fn write_buffers(binding_num: u32, first_array_element: u32, handles: &[u64]) -> DescriptorWrite {
    let elements = handles.iter().map(|&handle| Arc::new(Buffer { handle })).collect();
    DescriptorWrite {
        binding_num,
        first_array_element,
        elements: DescriptorWriteElements::Buffer(elements),
    }
}

fn handles_of(resources: &DescriptorBindingResources) -> Vec<Option<u64>> {
    match resources {
        DescriptorBindingResources::Buffer(list) => {
            list.as_slice().iter().map(|slot| slot.as_ref().map(|buffer| buffer.handle)).collect()
        }
        _ => panic!("the binding does not hold buffers"),
    }
}

#[test]
fn binding_of_five_buffers_takes_three_at_offset_one() {
    let mut resources = buffer_binding(5);
    assert_eq!(handles_of(&resources), vec![None, None, None, None, None]);
    assert_eq!(resources.update(&write_buffers(0, 1, &[7, 8, 9])), Ok(()));
    assert_eq!(handles_of(&resources), vec![None, Some(7), Some(8), Some(9), None]);
}

#[test]
fn binding_accepts_a_write_that_ends_at_its_length() {
    let mut resources = buffer_binding(4);
    assert_eq!(resources.update(&write_buffers(3, 1, &[1, 2, 3])), Ok(()));
    assert_eq!(handles_of(&resources), vec![None, Some(1), Some(2), Some(3)]);
}

#[test]
fn binding_refuses_a_write_that_ends_one_past_its_length() {
    let mut resources = buffer_binding(4);
    assert_eq!(resources.update(&write_buffers(3, 0, &[5, 6])), Ok(()));
    assert_eq!(
        resources.update(&write_buffers(3, 2, &[1, 2, 3])),
        Err(DescriptorUpdateError::OutOfBounds { binding: 3 })
    );
    assert_eq!(handles_of(&resources), vec![Some(5), Some(6), None, None]);
}

#[test]
fn binding_of_buffers_refuses_samplers() {
    let mut resources = buffer_binding(2);
    assert_eq!(resources.update(&write_buffers(6, 1, &[4])), Ok(()));
    let write = DescriptorWrite {
        binding_num: 6,
        first_array_element: 0,
        elements: DescriptorWriteElements::Sampler(vec![Arc::new(Sampler { handle: 1 })]),
    };
    assert_eq!(
        resources.update(&write),
        Err(DescriptorUpdateError::ResourceKindMismatch { binding: 6 })
    );
    assert_eq!(handles_of(&resources), vec![None, Some(4)]);
}

#[test]
fn binding_keeps_its_category_and_length_through_writes() {
    let mut resources = buffer_binding(3);
    for first in 0..5 {
        let _ = resources.update(&write_buffers(0, first, &[1, 2]));
        assert!(matches!(resources, DescriptorBindingResources::Buffer(_)));
        assert_eq!(handles_of(&resources).len(), 3);
    }
    assert_eq!(handles_of(&resources), vec![Some(1), Some(1), Some(2)]);
}

#[test]
fn binding_with_a_variable_count_has_the_count_given() {
    let desc = DescriptorDesc {
        ty: DescriptorType::StorageImage,
        descriptor_count: 10,
        variable_count: true,
        immutable_samplers: Vec::new(),
    };
    match DescriptorBindingResources::new(&desc, 4) {
        DescriptorBindingResources::ImageView(list) => {
            assert_eq!(list.as_slice(), &[None, None, None, None]);
        }
        _ => panic!("the binding does not hold image views"),
    }
}

#[test]
fn binding_whose_samplers_are_immutable_has_no_list() {
    let desc = DescriptorDesc {
        ty: DescriptorType::Sampler,
        descriptor_count: 2,
        variable_count: false,
        immutable_samplers: vec![Arc::new(Sampler { handle: 1 }), Arc::new(Sampler { handle: 2 })],
    };
    let mut resources = DescriptorBindingResources::new(&desc, 0);
    assert!(matches!(resources, DescriptorBindingResources::Nothing));
    let write = DescriptorWrite {
        binding_num: 1,
        first_array_element: 0,
        elements: DescriptorWriteElements::Sampler(Vec::new()),
    };
    assert_eq!(
        resources.update(&write),
        Err(DescriptorUpdateError::ResourceKindMismatch { binding: 1 })
    );
    assert!(matches!(resources, DescriptorBindingResources::Nothing));
}

#[test]
fn binding_of_image_views_refuses_pairs_and_takes_image_views() {
    let desc = DescriptorDesc {
        ty: DescriptorType::CombinedImageSampler,
        descriptor_count: 1,
        variable_count: false,
        immutable_samplers: vec![Arc::new(Sampler { handle: 1 })],
    };
    let mut resources = DescriptorBindingResources::new(&desc, 0);
    let view = Arc::new(ImageView { handle: 3 });
    let pairs = DescriptorWrite {
        binding_num: 0,
        first_array_element: 0,
        elements: DescriptorWriteElements::ImageViewSampler(vec![(
            view.clone(),
            Arc::new(Sampler { handle: 2 }),
        )]),
    };
    assert_eq!(
        resources.update(&pairs),
        Err(DescriptorUpdateError::ResourceKindMismatch { binding: 0 })
    );
    let views = DescriptorWrite {
        binding_num: 0,
        first_array_element: 0,
        elements: DescriptorWriteElements::ImageView(vec![view.clone()]),
    };
    assert_eq!(resources.update(&views), Ok(()));
    match &resources {
        DescriptorBindingResources::ImageView(list) => {
            assert_eq!(list.as_slice(), &[Some(view)]);
        }
        _ => panic!("the binding does not hold image views"),
    }
}
