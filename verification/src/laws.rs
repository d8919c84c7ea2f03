//! Laws of the model, each proved from the definitions.

use crate::error::DescriptorUpdateError;
use crate::layout::{DescriptorSetLayout, DescriptorType};
use crate::model::{
    apply_write, apply_writes, check_write, check_writes, written, BindingView, ResourceKind,
    SetView,
};
use crate::write::{DescriptorWrite, DescriptorWriteElements};
use vstd::prelude::*;

verus! {

/// A set that has just been made mirrors its layout: it has a binding for exactly
/// the numbers that the layout defines, each binding is of the category that the
/// layout gives it and, unless nothing can be written to it, has as many
/// descriptors as the layout gives it, and no descriptor is set.
pub proof fn lemma_new_set_mirrors_layout(layout: DescriptorSetLayout, variable_descriptor_count: u32)
    requires
        layout.wf(),
        variable_descriptor_count <= layout.variable_descriptor_count,
    ensures
        forall|binding: u32| #[trigger]
            layout.new_set(variable_descriptor_count).contains_key(binding) <==> layout.defines(
                binding,
            ),
        forall|binding: u32| #[trigger]
            layout.defines(binding) ==> layout.new_set(variable_descriptor_count)[binding].kind()
                == layout.desc(binding).kind(),
        forall|binding: u32| #[trigger]
            layout.defines(binding) && layout.desc(binding).kind() != ResourceKind::Nothing
                ==> layout.new_set(variable_descriptor_count)[binding].len() == layout.desc(
                binding,
            ).count(variable_descriptor_count),
        forall|binding: u32, index: int|
            layout.defines(binding) && 0 <= index < layout.new_set(
                variable_descriptor_count,
            )[binding].len() ==> !#[trigger] layout.new_set(
                variable_descriptor_count,
            )[binding].is_set(index),
{
}

/// A write changes neither the category of a binding nor the number of its
/// descriptors.
pub proof fn lemma_updated_keeps_shape(binding: BindingView, write: DescriptorWrite)
    ensures
        binding.updated(write).kind() == binding.kind(),
        binding.updated(write).len() == binding.len(),
{
}

/// A write changes neither which bindings a set has nor the shape of any of them.
pub proof fn lemma_apply_write_keeps_shape(set: SetView, write: DescriptorWrite)
    ensures
        apply_write(set, write).dom() == set.dom(),
        forall|binding: u32| #[trigger]
            set.contains_key(binding) ==> apply_write(set, write)[binding].kind()
                == set[binding].kind() && apply_write(set, write)[binding].len()
                == set[binding].len(),
{
    if check_write(set, write) is Ok {
        lemma_updated_keeps_shape(set[write.binding_num], write);
        assert(apply_write(set, write).dom() =~= set.dom());
    }
}

/// However many writes are applied, and whether or not they are all accepted, a
/// set keeps the bindings that it has, and each keeps its shape.
pub proof fn lemma_apply_writes_keeps_shape(set: SetView, writes: Seq<DescriptorWrite>)
    ensures
        apply_writes(set, writes).dom() == set.dom(),
        forall|binding: u32| #[trigger]
            set.contains_key(binding) ==> apply_writes(set, writes)[binding].kind()
                == set[binding].kind() && apply_writes(set, writes)[binding].len()
                == set[binding].len(),
    decreases writes.len(),
{
    if writes.len() > 0 && check_write(set, writes[0]) is Ok {
        lemma_apply_write_keeps_shape(set, writes[0]);
        lemma_apply_writes_keeps_shape(apply_write(set, writes[0]), writes.skip(1));
    }
}

/// A call with a single write does what the write does.
pub proof fn lemma_apply_writes_single(set: SetView, write: DescriptorWrite)
    ensures
        check_writes(set, seq![write]) == check_write(set, write),
        apply_writes(set, seq![write]) == apply_write(set, write),
{
    assert(seq![write].skip(1).len() == 0);
    reveal_with_fuel(check_writes, 2);
    reveal_with_fuel(apply_writes, 2);
}

/// One call with all the writes does what two calls do that share them out in
/// order, where the second call is made only if the first has refused nothing.
pub proof fn lemma_apply_writes_concat(
    set: SetView,
    first: Seq<DescriptorWrite>,
    second: Seq<DescriptorWrite>,
)
    ensures
        check_writes(set, first + second) == (if check_writes(set, first) is Ok {
            check_writes(apply_writes(set, first), second)
        } else {
            check_writes(set, first)
        }),
        apply_writes(set, first + second) == (if check_writes(set, first) is Ok {
            apply_writes(apply_writes(set, first), second)
        } else {
            apply_writes(set, first)
        }),
    decreases first.len(),
{
    if first.len() == 0 {
        assert(first + second == second);
    } else {
        assert((first + second)[0] == first[0]);
        assert((first + second).skip(1) == first.skip(1) + second);
        if check_write(set, first[0]) is Ok {
            lemma_apply_writes_concat(apply_write(set, first[0]), first.skip(1), second);
        }
    }
}

/// Writing the same values to the same place twice leaves what writing them once
/// leaves.
pub proof fn lemma_written_idempotent<T>(slots: Seq<Option<T>>, first: int, values: Seq<T>)
    ensures
        written(written(slots, first, values), first, values) == written(slots, first, values),
{
}

/// A binding answers a write that it has just been given as it answered it the
/// first time, and applying it again changes nothing.
pub proof fn lemma_updated_idempotent(binding: BindingView, write: DescriptorWrite)
    ensures
        binding.updated(write).check(write) == binding.check(write),
        binding.updated(write).updated(write) == binding.updated(write),
{
    if binding.check(write) is Ok {
        let first = write.first();
        match (binding, write.elements) {
            (BindingView::Buffer(slots), DescriptorWriteElements::Buffer(elements)) => {
                lemma_written_idempotent(slots, first, elements@);
            },
            (BindingView::BufferView(slots), DescriptorWriteElements::BufferView(elements)) => {
                lemma_written_idempotent(slots, first, elements@);
            },
            (BindingView::ImageView(slots), DescriptorWriteElements::ImageView(elements)) => {
                lemma_written_idempotent(slots, first, elements@);
            },
            (
                BindingView::ImageViewSampler(slots),
                DescriptorWriteElements::ImageViewSampler(elements),
            ) => {
                lemma_written_idempotent(slots, first, elements@);
            },
            (BindingView::Sampler(slots), DescriptorWriteElements::Sampler(elements)) => {
                lemma_written_idempotent(slots, first, elements@);
            },
            _ => {},
        }
    }
}

/// Applying a write to a set twice in succession leaves the set as applying it
/// once leaves it, and the second application is answered as the first.
pub proof fn lemma_apply_write_idempotent(set: SetView, write: DescriptorWrite)
    ensures
        check_write(apply_write(set, write), write) == check_write(set, write),
        apply_write(apply_write(set, write), write) == apply_write(set, write),
{
    if check_write(set, write) is Ok {
        lemma_updated_idempotent(set[write.binding_num], write);
        assert(apply_write(apply_write(set, write), write) =~= apply_write(set, write));
    }
}

/// One call that is given a write twice, and two calls that are each given it
/// once, end as one call that is given it once.
pub proof fn lemma_apply_writes_idempotent(set: SetView, write: DescriptorWrite)
    ensures
        check_writes(set, seq![write, write]) == check_writes(set, seq![write]),
        apply_writes(set, seq![write, write]) == apply_writes(set, seq![write]),
        check_writes(apply_writes(set, seq![write]), seq![write]) == check_writes(
            set,
            seq![write],
        ),
        apply_writes(apply_writes(set, seq![write]), seq![write]) == apply_writes(
            set,
            seq![write],
        ),
{
    lemma_apply_writes_single(set, write);
    lemma_apply_writes_single(apply_write(set, write), write);
    lemma_apply_write_idempotent(set, write);
    lemma_apply_writes_concat(set, seq![write], seq![write]);
    assert(seq![write] + seq![write] == seq![write, write]);
}

/// Where two writes have been written one after the other, a descriptor in the
/// range of the later one holds the later one's value, a descriptor in the range
/// of the earlier one alone holds the earlier one's value, and a descriptor in
/// neither range is as before.
pub proof fn lemma_written_later_wins<T>(
    slots: Seq<Option<T>>,
    first: int,
    values: Seq<T>,
    later_first: int,
    later_values: Seq<T>,
    index: int,
)
    requires
        0 <= index < slots.len(),
    ensures
        ({
            let after = written(written(slots, first, values), later_first, later_values);
            let in_earlier = first <= index < first + values.len();
            let in_later = later_first <= index < later_first + later_values.len();
            &&& in_later ==> after[index] == Some(later_values[index - later_first])
            &&& in_earlier && !in_later ==> after[index] == Some(values[index - first])
            &&& !in_earlier && !in_later ==> after[index] == slots[index]
        }),
{
}

/// Where a binding has accepted two writes one after the other, the later one
/// wins where their ranges overlap: a descriptor in the range of the later write
/// holds what that write has for it, a descriptor in the range of the earlier
/// write alone holds what the earlier write has for it, and a descriptor in
/// neither range is as before.
pub proof fn lemma_updated_later_wins(
    binding: BindingView,
    earlier: DescriptorWrite,
    later: DescriptorWrite,
    index: int,
)
    requires
        binding.check(earlier) is Ok,
        binding.updated(earlier).check(later) is Ok,
        0 <= index < binding.len(),
    ensures
        ({
            let after = binding.updated(earlier).updated(later);
            &&& later.covers(index) ==> after.is_written(index, later)
            &&& earlier.covers(index) && !later.covers(index) ==> after.is_written(index, earlier)
            &&& !earlier.covers(index) && !later.covers(index) ==> after.same_at(binding, index)
        }),
{
}

/// The same law for a set: where two writes to the same binding are applied one
/// after the other, by one call or by two, and both are accepted, the later one
/// wins where their ranges overlap.
pub proof fn lemma_apply_writes_later_wins(
    set: SetView,
    earlier: DescriptorWrite,
    later: DescriptorWrite,
    index: int,
)
    requires
        earlier.binding_num == later.binding_num,
        check_writes(set, seq![earlier, later]) is Ok,
        0 <= index < set[earlier.binding_num].len(),
    ensures
        ({
            let after = apply_writes(set, seq![earlier, later])[earlier.binding_num];
            let before = set[earlier.binding_num];
            &&& apply_writes(apply_writes(set, seq![earlier]), seq![later]) == apply_writes(
                set,
                seq![earlier, later],
            )
            &&& later.covers(index) ==> after.is_written(index, later)
            &&& earlier.covers(index) && !later.covers(index) ==> after.is_written(index, earlier)
            &&& !earlier.covers(index) && !later.covers(index) ==> after.same_at(before, index)
        }),
{
    assert(seq![earlier] + seq![later] == seq![earlier, later]);
    lemma_apply_writes_concat(set, seq![earlier], seq![later]);
    lemma_apply_writes_single(set, earlier);
    lemma_apply_writes_single(apply_write(set, earlier), later);
    lemma_updated_later_wins(set[earlier.binding_num], earlier, later, index);
}

/// Of a write whose resources are of the binding's category, the range decides: a
/// write that ends at or before the last descriptor is accepted, so one that ends
/// exactly there is; a write that ends past it, be it by one descriptor, is
/// refused as out of bounds and leaves the binding as it was.
pub proof fn lemma_write_bounds(binding: BindingView, write: DescriptorWrite)
    requires
        binding.kind() == write.elements.kind(),
    ensures
        write.end() <= binding.len() ==> binding.check(write) is Ok,
        write.end() > binding.len() ==> binding.check(write) == Err::<(), _>(
            DescriptorUpdateError::OutOfBounds { binding: write.binding_num },
        ) && binding.updated(write) == binding,
{
}

/// A write whose resources are not of the binding's category, such as samplers
/// for a binding of buffers, is refused as a mismatch and leaves the binding as it
/// was, wherever it starts and however many resources it has.
pub proof fn lemma_kind_mismatch(binding: BindingView, write: DescriptorWrite)
    requires
        binding.kind() != write.elements.kind(),
    ensures
        binding.check(write) == Err::<(), _>(
            DescriptorUpdateError::ResourceKindMismatch { binding: write.binding_num },
        ),
        binding.updated(write) == binding,
{
}

/// Where the layout supplies the samplers of a binding, no sampler can be written
/// to it, when the set has just been made or after any writes to the set. A
/// binding of combined image samplers then holds image views alone and refuses a
/// write of image views paired with samplers. A binding of samplers then holds
/// nothing and refuses every write.
pub proof fn lemma_immutable_samplers(
    layout: DescriptorSetLayout,
    variable_descriptor_count: u32,
    earlier: Seq<DescriptorWrite>,
    write: DescriptorWrite,
)
    requires
        layout.defines(write.binding_num),
        layout.desc(write.binding_num).has_immutable_samplers(),
    ensures
        ({
            let set = apply_writes(layout.new_set(variable_descriptor_count), earlier);
            let mismatch = Err::<(), _>(
                DescriptorUpdateError::ResourceKindMismatch { binding: write.binding_num },
            );
            &&& layout.desc(write.binding_num).ty == DescriptorType::CombinedImageSampler ==> {
                &&& set[write.binding_num] is ImageView
                &&& write.elements is ImageViewSampler ==> check_write(set, write) == mismatch
                    && apply_write(set, write) == set
            }
            &&& layout.desc(write.binding_num).ty == DescriptorType::Sampler ==> {
                &&& set[write.binding_num] is Nothing
                &&& check_write(set, write) == mismatch
                &&& apply_write(set, write) == set
            }
        }),
{
    lemma_apply_writes_keeps_shape(layout.new_set(variable_descriptor_count), earlier);
    let set = apply_writes(layout.new_set(variable_descriptor_count), earlier);
    assert(layout.new_set(variable_descriptor_count).contains_key(write.binding_num));
    assert(set.dom().contains(write.binding_num));
}

} // verus!
