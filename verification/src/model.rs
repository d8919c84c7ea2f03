//! The mathematical model: what a binding and a set hold, and what a write does
//! to them.

use crate::error::DescriptorUpdateError;
use crate::layout::{DescriptorDesc, DescriptorSetLayout, DescriptorType};
use crate::resource::{Buffer, BufferView, ImageView, Sampler};
use crate::write::{DescriptorWrite, DescriptorWriteElements};
use std::sync::Arc;
use vstd::prelude::*;

verus! {

/// The category of the resources of a binding or of a write.
#[derive(Clone, Copy, Debug, PartialEq, Eq)]
pub enum ResourceKind {
    /// No resource can be written.
    Nothing,
    Buffer,
    BufferView,
    ImageView,
    ImageViewSampler,
    Sampler,
}

/// What a binding holds: the category, and for each descriptor the resource that
/// it is set to, if any.
pub enum BindingView {
    Nothing,
    Buffer(Seq<Option<Arc<Buffer>>>),
    BufferView(Seq<Option<Arc<BufferView>>>),
    ImageView(Seq<Option<Arc<ImageView>>>),
    ImageViewSampler(Seq<Option<(Arc<ImageView>, Arc<Sampler>)>>),
    Sampler(Seq<Option<Arc<Sampler>>>),
}

/// The list of `count` descriptors that are all unset.
pub open spec fn unset<T>(count: nat) -> Seq<Option<T>> {
    Seq::new(count, |i: int| None::<T>)
}

/// The list `slots` after `values` have been written to it from index `first`
/// on: a descriptor in the range of the write holds the value that the write has
/// for it, every other descriptor is as before.
pub open spec fn written<T>(slots: Seq<Option<T>>, first: int, values: Seq<T>) -> Seq<Option<T>> {
    Seq::new(
        slots.len(),
        |i: int|
            if first <= i < first + values.len() {
                Some(values[i - first])
            } else {
                slots[i]
            },
    )
}

impl DescriptorWriteElements {
    /// The category of the resources.
    pub open spec fn kind(&self) -> ResourceKind {
        match self {
            DescriptorWriteElements::Buffer(_) => ResourceKind::Buffer,
            DescriptorWriteElements::BufferView(_) => ResourceKind::BufferView,
            DescriptorWriteElements::ImageView(_) => ResourceKind::ImageView,
            DescriptorWriteElements::ImageViewSampler(_) => ResourceKind::ImageViewSampler,
            DescriptorWriteElements::Sampler(_) => ResourceKind::Sampler,
        }
    }
}

impl DescriptorDesc {
    /// The category of the resources that can be written to the binding.
    pub open spec fn kind(&self) -> ResourceKind {
        match self.ty {
            DescriptorType::UniformBuffer
            | DescriptorType::StorageBuffer
            | DescriptorType::UniformBufferDynamic
            | DescriptorType::StorageBufferDynamic => ResourceKind::Buffer,
            DescriptorType::UniformTexelBuffer
            | DescriptorType::StorageTexelBuffer => ResourceKind::BufferView,
            DescriptorType::SampledImage
            | DescriptorType::StorageImage
            | DescriptorType::InputAttachment => ResourceKind::ImageView,
            DescriptorType::CombinedImageSampler => if self.has_immutable_samplers() {
                ResourceKind::ImageView
            } else {
                ResourceKind::ImageViewSampler
            },
            DescriptorType::Sampler => if self.has_immutable_samplers() {
                ResourceKind::Nothing
            } else {
                ResourceKind::Sampler
            },
        }
    }
}

impl BindingView {
    /// A binding of the given category with `count` descriptors, all unset. A
    /// binding to which nothing can be written has no descriptors.
    pub open spec fn unset(kind: ResourceKind, count: nat) -> BindingView {
        match kind {
            ResourceKind::Nothing => BindingView::Nothing,
            ResourceKind::Buffer => BindingView::Buffer(unset(count)),
            ResourceKind::BufferView => BindingView::BufferView(unset(count)),
            ResourceKind::ImageView => BindingView::ImageView(unset(count)),
            ResourceKind::ImageViewSampler => BindingView::ImageViewSampler(unset(count)),
            ResourceKind::Sampler => BindingView::Sampler(unset(count)),
        }
    }

    /// The category of the binding's resources.
    pub open spec fn kind(self) -> ResourceKind {
        match self {
            BindingView::Nothing => ResourceKind::Nothing,
            BindingView::Buffer(_) => ResourceKind::Buffer,
            BindingView::BufferView(_) => ResourceKind::BufferView,
            BindingView::ImageView(_) => ResourceKind::ImageView,
            BindingView::ImageViewSampler(_) => ResourceKind::ImageViewSampler,
            BindingView::Sampler(_) => ResourceKind::Sampler,
        }
    }

    /// The number of descriptors of the binding.
    pub open spec fn len(self) -> nat {
        match self {
            BindingView::Nothing => 0,
            BindingView::Buffer(slots) => slots.len(),
            BindingView::BufferView(slots) => slots.len(),
            BindingView::ImageView(slots) => slots.len(),
            BindingView::ImageViewSampler(slots) => slots.len(),
            BindingView::Sampler(slots) => slots.len(),
        }
    }

    /// Whether the descriptor at `index` is set to a resource.
    pub open spec fn is_set(self, index: int) -> bool {
        match self {
            BindingView::Nothing => false,
            BindingView::Buffer(slots) => slots[index] is Some,
            BindingView::BufferView(slots) => slots[index] is Some,
            BindingView::ImageView(slots) => slots[index] is Some,
            BindingView::ImageViewSampler(slots) => slots[index] is Some,
            BindingView::Sampler(slots) => slots[index] is Some,
        }
    }

    /// Whether the descriptor at `index` is set to the resource that `write` has
    /// for that index.
    pub open spec fn is_written(self, index: int, write: DescriptorWrite) -> bool {
        let at = index - write.first();
        match (self, write.elements) {
            (BindingView::Buffer(slots), DescriptorWriteElements::Buffer(elements)) => {
                slots[index] == Some(elements@[at])
            },
            (BindingView::BufferView(slots), DescriptorWriteElements::BufferView(elements)) => {
                slots[index] == Some(elements@[at])
            },
            (BindingView::ImageView(slots), DescriptorWriteElements::ImageView(elements)) => {
                slots[index] == Some(elements@[at])
            },
            (
                BindingView::ImageViewSampler(slots),
                DescriptorWriteElements::ImageViewSampler(elements),
            ) => slots[index] == Some(elements@[at]),
            (BindingView::Sampler(slots), DescriptorWriteElements::Sampler(elements)) => {
                slots[index] == Some(elements@[at])
            },
            _ => false,
        }
    }

    /// Whether the descriptor at `index` is the same here and in `other`.
    pub open spec fn same_at(self, other: BindingView, index: int) -> bool {
        match (self, other) {
            (BindingView::Buffer(slots), BindingView::Buffer(others)) => slots[index]
                == others[index],
            (BindingView::BufferView(slots), BindingView::BufferView(others)) => slots[index]
                == others[index],
            (BindingView::ImageView(slots), BindingView::ImageView(others)) => slots[index]
                == others[index],
            (BindingView::ImageViewSampler(slots), BindingView::ImageViewSampler(others)) => {
                slots[index] == others[index]
            },
            (BindingView::Sampler(slots), BindingView::Sampler(others)) => slots[index]
                == others[index],
            _ => false,
        }
    }

    /// Whether the write is accepted by the binding, and if not, why. The
    /// category is looked at first, then the range.
    pub open spec fn check(self, write: DescriptorWrite) -> Result<(), DescriptorUpdateError> {
        if self.kind() != write.elements.kind() {
            Err(DescriptorUpdateError::ResourceKindMismatch { binding: write.binding_num })
        } else if write.end() > self.len() {
            Err(DescriptorUpdateError::OutOfBounds { binding: write.binding_num })
        } else {
            Ok(())
        }
    }

    /// The binding after the write: with the resources of the write in their
    /// range if the write is accepted, unchanged if it is refused.
    pub open spec fn updated(self, write: DescriptorWrite) -> BindingView {
        if self.check(write) is Err {
            self
        } else {
            match (self, write.elements) {
                (BindingView::Buffer(slots), DescriptorWriteElements::Buffer(elements)) => {
                    BindingView::Buffer(written(slots, write.first(), elements@))
                },
                (
                    BindingView::BufferView(slots),
                    DescriptorWriteElements::BufferView(elements),
                ) => BindingView::BufferView(written(slots, write.first(), elements@)),
                (BindingView::ImageView(slots), DescriptorWriteElements::ImageView(elements)) => {
                    BindingView::ImageView(written(slots, write.first(), elements@))
                },
                (
                    BindingView::ImageViewSampler(slots),
                    DescriptorWriteElements::ImageViewSampler(elements),
                ) => BindingView::ImageViewSampler(written(slots, write.first(), elements@)),
                (BindingView::Sampler(slots), DescriptorWriteElements::Sampler(elements)) => {
                    BindingView::Sampler(written(slots, write.first(), elements@))
                },
                _ => self,
            }
        }
    }
}

/// What a set holds: for each binding number that its layout defines, what that
/// binding holds.
pub type SetView = Map<u32, BindingView>;

/// Whether the write is accepted by the set, and if not, why.
pub open spec fn check_write(set: SetView, write: DescriptorWrite) -> Result<
    (),
    DescriptorUpdateError,
> {
    if set.contains_key(write.binding_num) {
        set[write.binding_num].check(write)
    } else {
        Err(DescriptorUpdateError::UnknownBinding { binding: write.binding_num })
    }
}

/// The set after the write: the binding that the write names is updated if the
/// write is accepted, and nothing changes if it is refused.
pub open spec fn apply_write(set: SetView, write: DescriptorWrite) -> SetView {
    if check_write(set, write) is Ok {
        set.insert(write.binding_num, set[write.binding_num].updated(write))
    } else {
        set
    }
}

/// Whether the writes, applied one after the other, are all accepted, and if not,
/// why the first one that is refused is refused. Each write is checked against
/// the set as the writes before it have left it.
pub open spec fn check_writes(set: SetView, writes: Seq<DescriptorWrite>) -> Result<
    (),
    DescriptorUpdateError,
>
    decreases writes.len(),
{
    if writes.len() == 0 {
        Ok(())
    } else {
        match check_write(set, writes[0]) {
            Ok(()) => check_writes(apply_write(set, writes[0]), writes.skip(1)),
            Err(error) => Err(error),
        }
    }
}

/// The set after the writes have been applied one after the other, up to the
/// first one that is refused. The writes before that one stay applied.
pub open spec fn apply_writes(set: SetView, writes: Seq<DescriptorWrite>) -> SetView
    decreases writes.len(),
{
    if writes.len() == 0 {
        set
    } else {
        match check_write(set, writes[0]) {
            Ok(()) => apply_writes(apply_write(set, writes[0]), writes.skip(1)),
            Err(_) => set,
        }
    }
}

impl DescriptorSetLayout {
    /// What a set of this layout holds when it has just been made with the given
    /// variable count: one binding for each number that the layout defines, of
    /// the category and length that the layout gives it, with every descriptor
    /// unset.
    pub open spec fn new_set(&self, variable_descriptor_count: u32) -> SetView {
        Map::new(
            |binding: u32| self.defines(binding),
            |binding: u32|
                BindingView::unset(
                    self.desc(binding).kind(),
                    self.desc(binding).count(variable_descriptor_count),
                ),
        )
    }
}

} // verus!
