//! Declaration files for types that are shared with Teal.
//!
//! A [`TypeWalker`] collects type descriptors and global instances and renders
//! them as one Teal module. Every rendering function is specified by a pure
//! function on the descriptors' views.

pub mod text;
pub mod name_part;
pub mod type_generator;
pub mod embed_compiler;
pub mod export_instance;
pub mod type_walker;

pub use export_instance::{ExportInstances, InstanceWalker};
pub use name_part::{type_parts_to_str, NamePart};
pub use type_generator::{EnumGenerator, Field, Method, RecordGenerator, TypeGenerator};
pub use type_walker::{TypeBody, TypeName, TypeWalker};
