//! The hash map that keeps the resources of each binding under the binding's
//! number.
//!
//! The map is std's `HashMap`, hashing with `fnv::FnvHasher`. vstd describes what
//! `HashMap` does only for hashers that it knows to be deterministic, and it does
//! not know this one. An `FnvHasher` starts from a fixed state and folds in
//! nothing but the bytes that it is given, so with `u32` keys such a map finds a
//! key exactly if that key was inserted. The functions below state the
//! behaviour of the map's methods on that ground, without proof.

use crate::resources::DescriptorBindingResources;
use fnv::FnvHashMap;
use vstd::prelude::*;

verus! {

/// `fnv::FnvHasher`, the state of an FNV-1a hash in progress.
#[verifier::external_type_specification]
#[verifier::external_body]
pub struct ExFnvHasher(fnv::FnvHasher);

/// `std::hash::BuildHasherDefault`, which makes hashers by `Default`. It is the
/// third parameter of `FnvHashMap`.
#[verifier::external_type_specification]
#[verifier::external_body]
#[verifier::reject_recursive_types(H)]
pub struct ExBuildHasherDefault<H>(std::hash::BuildHasherDefault<H>);

/// Calls `HashMap::insert`: afterwards the map holds `resources` under `binding`,
/// in place of what it held there before, if anything, and every other key is as
/// before.
#[verifier::external_body]
pub(crate) fn insert(
    table: &mut FnvHashMap<u32, DescriptorBindingResources>,
    binding: u32,
    resources: DescriptorBindingResources,
)
    ensures
        final(table)@ == old(table)@.insert(binding, resources),
{
    table.insert(binding, resources);
}

/// Calls `HashMap::get`: a reference to the value under `binding`, or `None` if
/// the map has no such key.
#[verifier::external_body]
pub(crate) fn get(table: &FnvHashMap<u32, DescriptorBindingResources>, binding: u32) -> (found:
    Option<&DescriptorBindingResources>)
    ensures
        table@.contains_key(binding) ==> found == Some(&table@[binding]),
        !table@.contains_key(binding) ==> found is None,
{
    table.get(&binding)
}

/// Calls `HashMap::get_mut`: a mutable reference to the value under `binding`, or
/// `None` if the map has no such key. What is written through the reference is
/// written to the map under that key; nothing else in the map changes.
#[verifier::external_body]
pub(crate) fn get_mut(
    table: &mut FnvHashMap<u32, DescriptorBindingResources>,
    binding: u32,
) -> (found: Option<&mut DescriptorBindingResources>)
    ensures
        old(table)@.contains_key(binding) ==> found is Some && *found.unwrap() == old(
            table,
        )@[binding] && final(table)@ == old(table)@.insert(binding, *final(found.unwrap())),
        !old(table)@.contains_key(binding) ==> found is None && final(table)@ == old(table)@,
{
    table.get_mut(&binding)
}

} // verus!
