//! Traversal of the index allocation attribute of an NTFS directory index:
//! lazy, strided streaming of its fixed-size index records and validated
//! random access to one record by its virtual cluster number.

pub mod error;
pub mod types;
pub mod value;
pub mod index_root;
pub mod index_record;
pub mod index_allocation;
pub mod properties;
