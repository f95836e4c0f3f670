//! Verified core of an HDF5 binding: selections and hyperslabs, filter
//! pipelines, property-list settings, datatype descriptors, error stacks and
//! the recursive lock that serialises calls into the C library.

pub mod text;
pub mod error;
pub mod selection;
pub mod points;
pub mod filters;
pub mod filter;
pub mod blosc;
pub mod lzf;
pub mod plist_class;
pub mod file_create;
pub mod file_access;
pub mod types;
pub mod datatype;
pub mod dataspace;
pub mod space;
pub mod sync;
pub mod file;
pub mod handle;
pub mod container;
pub mod dataset_create;
pub mod dataset_access;
pub mod dataset_builder;
pub mod dataset;
pub mod group;
pub mod class;
pub mod location;
pub mod plist;
pub mod byte_reader;
