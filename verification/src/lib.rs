//! The resources bound to a descriptor set.
//!
//! A descriptor set layout gives every binding a descriptor type and a number of
//! descriptors. [`DescriptorSetResources`] mirrors such a layout: for each binding
//! it keeps one list of optional resource handles, of the category that the
//! binding's type calls for, and it applies descriptor writes to those lists
//! after checking them.

pub mod elements;
pub mod error;
pub mod laws;
pub mod layout;
pub mod model;
pub mod resource;
pub mod resources;
mod table;
pub mod write;

pub use elements::Elements;
pub use error::DescriptorUpdateError;
pub use layout::{DescriptorDesc, DescriptorSetLayout, DescriptorType};
pub use model::ResourceKind;
pub use resource::{Buffer, BufferView, ImageView, Sampler};
pub use resources::{DescriptorBindingResources, DescriptorSetResources};
pub use write::{DescriptorWrite, DescriptorWriteElements};
