//! Encoders for the type and tag sections of a WebAssembly module.
//!
//! The building blocks are the value-type model (`ValType`, `RefType`,
//! `HeapType`, `AbstractHeapType`, `StorageType`, `FieldType`), the composite
//! types built on top of it (`FuncType`, `ArrayType`, `StructType`,
//! `CompositeType`, `SubType`), and two append-only section accumulators
//! (`TypeSection`, `TagSection`). Every encoder is specified down to the exact
//! byte sequence it appends.

mod leb128;
mod tags;
mod types;

pub use leb128::push_signed_leb128;
pub use leb128::push_unsigned_leb128;
pub use leb128::signed_leb128;
pub use leb128::unsigned_leb128;

pub use tags::TagKind;
pub use tags::TagSection;
pub use tags::TagType;
pub use tags::tag_kind_byte;
pub use tags::tag_type_bytes;

pub use types::AbstractHeapType;
pub use types::ArrayType;
pub use types::CompositeType;
pub use types::FieldType;
pub use types::FuncType;
pub use types::HeapType;
pub use types::RefType;
pub use types::StorageType;
pub use types::StructType;
pub use types::SubType;
pub use types::TypeSection;
pub use types::ValType;
pub use types::abstract_heap_type_byte;
pub use types::array_type_bytes;
pub use types::composite_type_bytes;
pub use types::field_type_bytes;
pub use types::field_types_bytes;
pub use types::func_type_bytes;
pub use types::heap_type_bytes;
pub use types::lemma_externref_short_encoding;
pub use types::lemma_final_without_supertype_is_bare;
pub use types::lemma_funcref_short_encoding;
pub use types::lemma_ref_type_first_byte;
pub use types::lemma_sub_type_encoding_deterministic;
pub use types::lemma_val_type_first_byte_disambiguates;
pub use types::rec_group_bytes;
pub use types::ref_type_bytes;
pub use types::storage_type_bytes;
pub use types::struct_type_bytes;
pub use types::sub_type_bytes;
pub use types::sub_types_bytes;
pub use types::supertype_idx_bytes;
pub use types::val_type_bytes;
pub use types::val_types_bytes;
