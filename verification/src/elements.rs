//! Lists of optional resource handles, one handle per descriptor of a binding.
//!
//! The lists are stored in `smallvec::SmallVec` with room for one descriptor
//! inline, since most bindings have exactly one. Verus cannot look into a
//! `SmallVec`, so this module is the boundary: it names what each kind of list
//! holds and states, without proof, what the three `SmallVec` functions in use do
//! to it. The statements are made for the five kinds of list that the library
//! keeps, one kind at a time, and for no other element type; the five sets say
//! the same thing. As in vstd's account of `Vec`, memory is taken to suffice.
//! Everything outside this module is proved against these statements.

use crate::model::unset;
use crate::resource::{Buffer, BufferView, ImageView, Sampler};
use smallvec::SmallVec;
use std::sync::Arc;
use vstd::prelude::*;

verus! {

/// A list of descriptors of one binding, each either unset or holding a handle of
/// type `T`. The length is fixed when the list is made.
///
/// The field is a `SmallVec`, whose declaration Verus does not accept (its
/// parameter is bound by `smallvec::Array`), so the struct as a whole is opaque
/// to the verifier.
#[verifier::external_body]
#[verifier::reject_recursive_types(T)]
pub struct Elements<T> {
    list: SmallVec<[Option<T>; 1]>,
}

/// The descriptors of a list of buffers, in order.
pub uninterp spec fn buffer_elements(list: Elements<Arc<Buffer>>) -> Seq<Option<Arc<Buffer>>>;

/// Calls `SmallVec::from_elem(None, count)`, which makes a vector of `count`
/// clones of its first argument.
#[verifier::external_body]
pub(crate) fn unset_buffers(count: usize) -> (list: Elements<Arc<Buffer>>)
    ensures
        buffer_elements(list) == unset::<Arc<Buffer>>(count as nat),
{
    Elements { list: SmallVec::from_elem(None, count) }
}

/// Calls `SmallVec::as_slice`, which borrows the whole vector as a slice.
#[verifier::external_body]
fn buffers(list: &Elements<Arc<Buffer>>) -> (slots: &[Option<Arc<Buffer>>])
    ensures
        slots@ == buffer_elements(*list),
{
    list.list.as_slice()
}

/// Calls `SmallVec::as_mut_slice`, which borrows the whole vector as a mutable
/// slice: what is written to the slice is written to the vector, and the length
/// cannot change through it.
#[verifier::external_body]
pub(crate) fn buffers_mut(list: &mut Elements<Arc<Buffer>>) -> (slots: &mut [Option<Arc<Buffer>>])
    ensures
        slots@ == buffer_elements(*old(list)),
        buffer_elements(*final(list)) == final(slots)@,
{
    list.list.as_mut_slice()
}

impl Elements<Arc<Buffer>> {
    /// The descriptors as a slice.
    pub fn as_slice(&self) -> (slots: &[Option<Arc<Buffer>>])
        ensures
            slots@ == buffer_elements(*self),
    {
        buffers(self)
    }
}

/// The descriptors of a list of buffer views, in order.
pub uninterp spec fn buffer_view_elements(list: Elements<Arc<BufferView>>) -> Seq<Option<Arc<BufferView>>>;

/// Calls `SmallVec::from_elem(None, count)`, which makes a vector of `count`
/// clones of its first argument.
#[verifier::external_body]
pub(crate) fn unset_buffer_views(count: usize) -> (list: Elements<Arc<BufferView>>)
    ensures
        buffer_view_elements(list) == unset::<Arc<BufferView>>(count as nat),
{
    Elements { list: SmallVec::from_elem(None, count) }
}

/// Calls `SmallVec::as_slice`, which borrows the whole vector as a slice.
#[verifier::external_body]
fn buffer_views(list: &Elements<Arc<BufferView>>) -> (slots: &[Option<Arc<BufferView>>])
    ensures
        slots@ == buffer_view_elements(*list),
{
    list.list.as_slice()
}

/// Calls `SmallVec::as_mut_slice`, which borrows the whole vector as a mutable
/// slice: what is written to the slice is written to the vector, and the length
/// cannot change through it.
#[verifier::external_body]
pub(crate) fn buffer_views_mut(list: &mut Elements<Arc<BufferView>>) -> (slots: &mut [Option<Arc<BufferView>>])
    ensures
        slots@ == buffer_view_elements(*old(list)),
        buffer_view_elements(*final(list)) == final(slots)@,
{
    list.list.as_mut_slice()
}

impl Elements<Arc<BufferView>> {
    /// The descriptors as a slice.
    pub fn as_slice(&self) -> (slots: &[Option<Arc<BufferView>>])
        ensures
            slots@ == buffer_view_elements(*self),
    {
        buffer_views(self)
    }
}

/// The descriptors of a list of image views, in order.
pub uninterp spec fn image_view_elements(list: Elements<Arc<ImageView>>) -> Seq<Option<Arc<ImageView>>>;

/// Calls `SmallVec::from_elem(None, count)`, which makes a vector of `count`
/// clones of its first argument.
#[verifier::external_body]
pub(crate) fn unset_image_views(count: usize) -> (list: Elements<Arc<ImageView>>)
    ensures
        image_view_elements(list) == unset::<Arc<ImageView>>(count as nat),
{
    Elements { list: SmallVec::from_elem(None, count) }
}

/// Calls `SmallVec::as_slice`, which borrows the whole vector as a slice.
#[verifier::external_body]
fn image_views(list: &Elements<Arc<ImageView>>) -> (slots: &[Option<Arc<ImageView>>])
    ensures
        slots@ == image_view_elements(*list),
{
    list.list.as_slice()
}

/// Calls `SmallVec::as_mut_slice`, which borrows the whole vector as a mutable
/// slice: what is written to the slice is written to the vector, and the length
/// cannot change through it.
#[verifier::external_body]
pub(crate) fn image_views_mut(list: &mut Elements<Arc<ImageView>>) -> (slots: &mut [Option<Arc<ImageView>>])
    ensures
        slots@ == image_view_elements(*old(list)),
        image_view_elements(*final(list)) == final(slots)@,
{
    list.list.as_mut_slice()
}

impl Elements<Arc<ImageView>> {
    /// The descriptors as a slice.
    pub fn as_slice(&self) -> (slots: &[Option<Arc<ImageView>>])
        ensures
            slots@ == image_view_elements(*self),
    {
        image_views(self)
    }
}

/// The descriptors of a list of image views paired with samplers, in order.
pub uninterp spec fn image_view_sampler_elements(list: Elements<(Arc<ImageView>, Arc<Sampler>)>) -> Seq<Option<(Arc<ImageView>, Arc<Sampler>)>>;

/// Calls `SmallVec::from_elem(None, count)`, which makes a vector of `count`
/// clones of its first argument.
#[verifier::external_body]
pub(crate) fn unset_image_view_samplers(count: usize) -> (list: Elements<(Arc<ImageView>, Arc<Sampler>)>)
    ensures
        image_view_sampler_elements(list) == unset::<(Arc<ImageView>, Arc<Sampler>)>(count as nat),
{
    Elements { list: SmallVec::from_elem(None, count) }
}

/// Calls `SmallVec::as_slice`, which borrows the whole vector as a slice.
#[verifier::external_body]
fn image_view_samplers(list: &Elements<(Arc<ImageView>, Arc<Sampler>)>) -> (slots: &[Option<(Arc<ImageView>, Arc<Sampler>)>])
    ensures
        slots@ == image_view_sampler_elements(*list),
{
    list.list.as_slice()
}

/// Calls `SmallVec::as_mut_slice`, which borrows the whole vector as a mutable
/// slice: what is written to the slice is written to the vector, and the length
/// cannot change through it.
#[verifier::external_body]
pub(crate) fn image_view_samplers_mut(list: &mut Elements<(Arc<ImageView>, Arc<Sampler>)>) -> (slots: &mut [Option<(Arc<ImageView>, Arc<Sampler>)>])
    ensures
        slots@ == image_view_sampler_elements(*old(list)),
        image_view_sampler_elements(*final(list)) == final(slots)@,
{
    list.list.as_mut_slice()
}

impl Elements<(Arc<ImageView>, Arc<Sampler>)> {
    /// The descriptors as a slice.
    pub fn as_slice(&self) -> (slots: &[Option<(Arc<ImageView>, Arc<Sampler>)>])
        ensures
            slots@ == image_view_sampler_elements(*self),
    {
        image_view_samplers(self)
    }
}

/// The descriptors of a list of samplers, in order.
pub uninterp spec fn sampler_elements(list: Elements<Arc<Sampler>>) -> Seq<Option<Arc<Sampler>>>;

/// Calls `SmallVec::from_elem(None, count)`, which makes a vector of `count`
/// clones of its first argument.
#[verifier::external_body]
pub(crate) fn unset_samplers(count: usize) -> (list: Elements<Arc<Sampler>>)
    ensures
        sampler_elements(list) == unset::<Arc<Sampler>>(count as nat),
{
    Elements { list: SmallVec::from_elem(None, count) }
}

/// Calls `SmallVec::as_slice`, which borrows the whole vector as a slice.
#[verifier::external_body]
fn samplers(list: &Elements<Arc<Sampler>>) -> (slots: &[Option<Arc<Sampler>>])
    ensures
        slots@ == sampler_elements(*list),
{
    list.list.as_slice()
}

/// Calls `SmallVec::as_mut_slice`, which borrows the whole vector as a mutable
/// slice: what is written to the slice is written to the vector, and the length
/// cannot change through it.
#[verifier::external_body]
pub(crate) fn samplers_mut(list: &mut Elements<Arc<Sampler>>) -> (slots: &mut [Option<Arc<Sampler>>])
    ensures
        slots@ == sampler_elements(*old(list)),
        sampler_elements(*final(list)) == final(slots)@,
{
    list.list.as_mut_slice()
}

impl Elements<Arc<Sampler>> {
    /// The descriptors as a slice.
    pub fn as_slice(&self) -> (slots: &[Option<Arc<Sampler>>])
        ensures
            slots@ == sampler_elements(*self),
    {
        samplers(self)
    }
}

} // verus!
