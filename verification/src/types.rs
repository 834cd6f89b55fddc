//! The type-section model: value types, reference and heap types, composite
//! types, sub types and recursion groups, and the append-only `TypeSection`
//! accumulator that serializes them.
//!
//! Every encoder has a companion spec function giving the exact byte
//! sequence it appends, so a caller knows the output byte for byte.

use vstd::prelude::*;

use crate::leb128::push_signed_leb128;
use crate::leb128::push_unsigned_leb128;
use crate::leb128::signed_leb128;
use crate::leb128::unsigned_leb128;

verus! {

/// An abstract heap type.
#[derive(Clone, Copy, Debug, PartialEq, Eq, Hash, PartialOrd, Ord)]
pub enum AbstractHeapType {
    /// Untyped (any) function.
    Func,
    /// The abstract external heap type.
    Extern,
    /// The abstract `any` heap type: the common supertype (a.k.a. top) of
    /// all internal types.
    Any,
    /// The abstract `none` heap type: the common subtype (a.k.a. bottom) of
    /// all internal types.
    NoneType,
    /// The abstract `noextern` heap type: the common subtype (a.k.a.
    /// bottom) of all external types.
    NoExtern,
    /// The abstract `nofunc` heap type: the common subtype (a.k.a. bottom)
    /// of all function types.
    NoFunc,
    /// The abstract `eq` heap type: the common supertype of all
    /// referenceable types on which comparison (ref.eq) is allowed.
    Eq,
    /// The abstract `struct` heap type: the common supertype of all struct
    /// types.
    Struct,
    /// The abstract `array` heap type: the common supertype of all array
    /// types.
    Array,
    /// The unboxed `i31` heap type.
    I31,
    /// The abstract `exception` heap type.
    Exn,
    /// The abstract `noexn` heap type.
    NoExn,
}

/// The fixed one-byte code of an abstract heap type.
pub open spec fn abstract_heap_type_byte(t: AbstractHeapType) -> u8 {
    match t {
        AbstractHeapType::Func => 0x70,
        AbstractHeapType::Extern => 0x6F,
        AbstractHeapType::Any => 0x6E,
        AbstractHeapType::NoneType => 0x71,
        AbstractHeapType::NoExtern => 0x72,
        AbstractHeapType::NoFunc => 0x73,
        AbstractHeapType::Eq => 0x6D,
        AbstractHeapType::Struct => 0x6B,
        AbstractHeapType::Array => 0x6A,
        AbstractHeapType::I31 => 0x6C,
        AbstractHeapType::Exn => 0x69,
        AbstractHeapType::NoExn => 0x74,
    }
}

impl AbstractHeapType {
    /// Append this type's one-byte code to `sink`.
    pub fn encode(&self, sink: &mut Vec<u8>)
        ensures
            final(sink)@ == old(sink)@ + seq![abstract_heap_type_byte(*self)],
    {
        let b: u8 = match self {
            AbstractHeapType::Func => 0x70,
            AbstractHeapType::Extern => 0x6F,
            AbstractHeapType::Any => 0x6E,
            AbstractHeapType::NoneType => 0x71,
            AbstractHeapType::NoExtern => 0x72,
            AbstractHeapType::NoFunc => 0x73,
            AbstractHeapType::Eq => 0x6D,
            AbstractHeapType::Struct => 0x6B,
            AbstractHeapType::Array => 0x6A,
            AbstractHeapType::I31 => 0x6C,
            AbstractHeapType::Exn => 0x69,
            AbstractHeapType::NoExn => 0x74,
        };
        sink.push(b);
        assert(sink@ =~= old(sink)@ + seq![abstract_heap_type_byte(*self)]);
    }
}

/// A heap type: either an abstract heap type or a reference to a concrete
/// type declared at the given zero-based index of the type section.
#[derive(Clone, Copy, Debug, PartialEq, Eq, Hash, PartialOrd, Ord)]
pub enum HeapType {
    /// An abstract heap type; e.g., `anyref`.
    Abstract {
        /// Whether the type is shared.
        shared: bool,
        /// The actual heap type.
        ty: AbstractHeapType,
    },
    /// A concrete Wasm-defined type at the given index.
    Concrete(u32),
}

/// The encoding of a heap type: an optional shared-marker byte followed by
/// the abstract type's code, or the concrete index as a signed LEB128
/// integer (it is decoded as a signed 33-bit quantity).
pub open spec fn heap_type_bytes(t: HeapType) -> Seq<u8> {
    match t {
        HeapType::Abstract { shared, ty } => {
            if shared {
                seq![0x65u8, abstract_heap_type_byte(ty)]
            } else {
                seq![abstract_heap_type_byte(ty)]
            }
        },
        HeapType::Concrete(i) => signed_leb128(i as nat),
    }
}

impl HeapType {
    /// Append this heap type's encoding to `sink`.
    pub fn encode(&self, sink: &mut Vec<u8>)
        ensures
            final(sink)@ == old(sink)@ + heap_type_bytes(*self),
    {
        match self {
            HeapType::Abstract { shared, ty } => {
                if *shared {
                    sink.push(0x65);
                }
                ty.encode(sink);
            },
            HeapType::Concrete(i) => {
                push_signed_leb128(sink, *i);
            },
        }
        assert(sink@ =~= old(sink)@ + heap_type_bytes(*self));
    }
}

/// A reference type: a heap type together with its nullability.
#[derive(Clone, Copy, Debug, PartialEq, Eq, Hash, PartialOrd, Ord)]
pub struct RefType {
    /// Whether null is an inhabitant.
    pub nullable: bool,
    /// The type of the value referred to.
    pub heap_type: HeapType,
}

/// The encoding of a reference type. The nullable references to the
/// unshared abstract `func` and `extern` heap types keep their pre-extension
/// one-byte encodings (`funcref` and `externref`); every other reference
/// type takes a prefix byte, 0x63 if nullable and 0x64 if not, followed by
/// the heap type's encoding.
pub open spec fn ref_type_bytes(t: RefType) -> Seq<u8> {
    match (t.nullable, t.heap_type) {
        (true, HeapType::Abstract { shared: false, ty: AbstractHeapType::Func }) => seq![0x70u8],
        (true, HeapType::Abstract { shared: false, ty: AbstractHeapType::Extern }) => seq![
            0x6Fu8,
        ],
        _ => seq![if t.nullable { 0x63u8 } else { 0x64u8 }] + heap_type_bytes(t.heap_type),
    }
}

impl RefType {
    /// The `anyref` type: nullable, unshared abstract `any`.
    pub fn anyref() -> (r: RefType)
        ensures
            r == (RefType {
                nullable: true,
                heap_type: HeapType::Abstract { shared: false, ty: AbstractHeapType::Any },
            }),
    {
        RefType {
            nullable: true,
            heap_type: HeapType::Abstract { shared: false, ty: AbstractHeapType::Any },
        }
    }

    /// The `eqref` type: nullable, unshared abstract `eq`.
    pub fn eqref() -> (r: RefType)
        ensures
            r == (RefType {
                nullable: true,
                heap_type: HeapType::Abstract { shared: false, ty: AbstractHeapType::Eq },
            }),
    {
        RefType {
            nullable: true,
            heap_type: HeapType::Abstract { shared: false, ty: AbstractHeapType::Eq },
        }
    }

    /// The `funcref` type: nullable, unshared abstract `func`.
    pub fn funcref() -> (r: RefType)
        ensures
            r == (RefType {
                nullable: true,
                heap_type: HeapType::Abstract { shared: false, ty: AbstractHeapType::Func },
            }),
    {
        RefType {
            nullable: true,
            heap_type: HeapType::Abstract { shared: false, ty: AbstractHeapType::Func },
        }
    }

    /// The `externref` type: nullable, unshared abstract `extern`.
    pub fn externref() -> (r: RefType)
        ensures
            r == (RefType {
                nullable: true,
                heap_type: HeapType::Abstract { shared: false, ty: AbstractHeapType::Extern },
            }),
    {
        RefType {
            nullable: true,
            heap_type: HeapType::Abstract { shared: false, ty: AbstractHeapType::Extern },
        }
    }

    /// The `i31ref` type: nullable, unshared abstract `i31`.
    pub fn i31ref() -> (r: RefType)
        ensures
            r == (RefType {
                nullable: true,
                heap_type: HeapType::Abstract { shared: false, ty: AbstractHeapType::I31 },
            }),
    {
        RefType {
            nullable: true,
            heap_type: HeapType::Abstract { shared: false, ty: AbstractHeapType::I31 },
        }
    }

    /// The `arrayref` type: nullable, unshared abstract `array`.
    pub fn arrayref() -> (r: RefType)
        ensures
            r == (RefType {
                nullable: true,
                heap_type: HeapType::Abstract { shared: false, ty: AbstractHeapType::Array },
            }),
    {
        RefType {
            nullable: true,
            heap_type: HeapType::Abstract { shared: false, ty: AbstractHeapType::Array },
        }
    }

    /// The `exnref` type: nullable, unshared abstract `exn`.
    pub fn exnref() -> (r: RefType)
        ensures
            r == (RefType {
                nullable: true,
                heap_type: HeapType::Abstract { shared: false, ty: AbstractHeapType::Exn },
            }),
    {
        RefType {
            nullable: true,
            heap_type: HeapType::Abstract { shared: false, ty: AbstractHeapType::Exn },
        }
    }

    /// This reference type with its nullability replaced.
    pub fn nullable(self, nullable: bool) -> (r: Self)
        ensures
            r == (RefType { nullable, heap_type: self.heap_type }),
    {
        RefType { nullable, heap_type: self.heap_type }
    }

    /// Append this reference type's encoding to `sink`.
    pub fn encode(&self, sink: &mut Vec<u8>)
        ensures
            final(sink)@ == old(sink)@ + ref_type_bytes(*self),
    {
        if self.nullable {
            // Favor the pre-extension one-byte encodings of `funcref` and
            // `externref` where possible.
            match self.heap_type {
                HeapType::Abstract { shared: false, ty: AbstractHeapType::Func } => {
                    sink.push(0x70);
                    assert(sink@ =~= old(sink)@ + ref_type_bytes(*self));
                    return ;
                },
                HeapType::Abstract { shared: false, ty: AbstractHeapType::Extern } => {
                    sink.push(0x6F);
                    assert(sink@ =~= old(sink)@ + ref_type_bytes(*self));
                    return ;
                },
                _ => {},
            }
        }
        if self.nullable {
            sink.push(0x63);
        } else {
            sink.push(0x64);
        }
        self.heap_type.encode(sink);
        assert(sink@ =~= old(sink)@ + ref_type_bytes(*self));
    }
}

/// The type of a core WebAssembly value.
#[derive(Clone, Copy, Debug, PartialEq, Eq, Hash, PartialOrd, Ord)]
pub enum ValType {
    /// The `i32` type.
    I32,
    /// The `i64` type.
    I64,
    /// The `f32` type.
    F32,
    /// The `f64` type.
    F64,
    /// The `v128` type, part of the SIMD proposal.
    V128,
    /// A reference type. The `funcref` and `externref` types fall into
    /// this category; the full generalization is part of the
    /// function-references proposal.
    Ref(RefType),
}

/// The encoding of a value type: a fixed one-byte code for the numeric and
/// vector types, and the reference type's own encoding otherwise.
pub open spec fn val_type_bytes(t: ValType) -> Seq<u8> {
    match t {
        ValType::I32 => seq![0x7Fu8],
        ValType::I64 => seq![0x7Eu8],
        ValType::F32 => seq![0x7Du8],
        ValType::F64 => seq![0x7Cu8],
        ValType::V128 => seq![0x7Bu8],
        ValType::Ref(r) => ref_type_bytes(r),
    }
}

impl ValType {
    /// Is this a numeric value type?
    pub fn is_numeric(&self) -> (r: bool)
        ensures
            r == (*self == ValType::I32 || *self == ValType::I64 || *self == ValType::F32 || *self
                == ValType::F64),
    {
        match self {
            ValType::I32 | ValType::I64 | ValType::F32 | ValType::F64 => true,
            ValType::V128 | ValType::Ref(_) => false,
        }
    }

    /// Is this a vector type?
    pub fn is_vector(&self) -> (r: bool)
        ensures
            r == (*self == ValType::V128),
    {
        match self {
            ValType::V128 => true,
            ValType::I32 | ValType::I64 | ValType::F32 | ValType::F64 | ValType::Ref(_) => false,
        }
    }

    /// Is this a reference type?
    pub fn is_reference(&self) -> (r: bool)
        ensures
            r == (*self matches ValType::Ref(_)),
    {
        match self {
            ValType::Ref(_) => true,
            ValType::I32 | ValType::I64 | ValType::F32 | ValType::F64 | ValType::V128 => false,
        }
    }

    /// Is this value defaultable? Every numeric and vector value is; a
    /// reference is exactly when it is nullable.
    pub fn is_defaultable(&self) -> (r: bool)
        ensures
            r == match *self {
                ValType::Ref(rt) => rt.nullable,
                _ => true,
            },
    {
        match self {
            ValType::Ref(r) => r.nullable,
            ValType::I32 | ValType::I64 | ValType::F32 | ValType::F64 | ValType::V128 => true,
        }
    }

    /// Append this value type's encoding to `sink`.
    pub fn encode(&self, sink: &mut Vec<u8>)
        ensures
            final(sink)@ == old(sink)@ + val_type_bytes(*self),
    {
        match self {
            ValType::I32 => sink.push(0x7F),
            ValType::I64 => sink.push(0x7E),
            ValType::F32 => sink.push(0x7D),
            ValType::F64 => sink.push(0x7C),
            ValType::V128 => sink.push(0x7B),
            ValType::Ref(rt) => rt.encode(sink),
        }
        assert(sink@ =~= old(sink)@ + val_type_bytes(*self));
    }
}

impl From<RefType> for ValType {
    /// Wrap a reference type as a value type.
    fn from(ty: RefType) -> (r: ValType) {
        ValType::Ref(ty)
    }
}

impl vstd::std_specs::convert::FromSpecImpl<RefType> for ValType {
    open spec fn obeys_from_spec() -> bool {
        true
    }

    open spec fn from_spec(ty: RefType) -> ValType {
        ValType::Ref(ty)
    }
}

/// Storage type for composite type fields. `i8` and `i16` are packed
/// storage; they unpack to `i32` for arithmetic purposes.
#[derive(Clone, Copy, Debug, PartialEq, Eq, Hash, PartialOrd, Ord)]
pub enum StorageType {
    /// The `i8` type.
    I8,
    /// The `i16` type.
    I16,
    /// A value type.
    Val(ValType),
}

/// The encoding of a storage type: a fixed one-byte code for the packed
/// types, and the value type's own encoding otherwise.
pub open spec fn storage_type_bytes(t: StorageType) -> Seq<u8> {
    match t {
        StorageType::I8 => seq![0x78u8],
        StorageType::I16 => seq![0x77u8],
        StorageType::Val(v) => val_type_bytes(v),
    }
}

impl StorageType {
    /// Unpack this storage type into a value type: the packed types unpack
    /// to `i32`, a value type unpacks to itself.
    pub fn unpack(&self) -> (r: ValType)
        ensures
            r == match *self {
                StorageType::I8 | StorageType::I16 => ValType::I32,
                StorageType::Val(v) => v,
            },
    {
        match self {
            StorageType::I8 | StorageType::I16 => ValType::I32,
            StorageType::Val(v) => *v,
        }
    }

    /// Is this storage type defaultable? It is exactly when its unpacked
    /// value type is.
    pub fn is_defaultable(&self) -> (r: bool)
        ensures
            r == match *self {
                StorageType::Val(ValType::Ref(rt)) => rt.nullable,
                _ => true,
            },
    {
        self.unpack().is_defaultable()
    }

    /// Append this storage type's encoding to `sink`.
    pub fn encode(&self, sink: &mut Vec<u8>)
        ensures
            final(sink)@ == old(sink)@ + storage_type_bytes(*self),
    {
        match self {
            StorageType::I8 => {
                sink.push(0x78);
            },
            StorageType::I16 => {
                sink.push(0x77);
            },
            StorageType::Val(vt) => {
                vt.encode(sink);
            },
        }
        assert(sink@ =~= old(sink)@ + storage_type_bytes(*self));
    }
}

/// Field type in composite types (structs, arrays): a storage type
/// together with its mutability.
#[derive(Clone, Copy, Debug, PartialEq, Eq, Hash, PartialOrd, Ord)]
pub struct FieldType {
    /// Storage type of the field.
    pub element_type: StorageType,
    /// Is the field mutable.
    pub mutable: bool,
}

/// The encoding of a field: the storage type's encoding followed by one
/// mutability byte, 1 if mutable and 0 if not.
pub open spec fn field_type_bytes(f: FieldType) -> Seq<u8> {
    storage_type_bytes(f.element_type) + seq![
        if f.mutable {
            1u8
        } else {
            0u8
        },
    ]
}

/// Represents a type of a function in a WebAssembly module.
#[derive(Debug, PartialEq, Eq, Hash)]
pub struct FuncType {
    /// The combined parameter and result types.
    params_results: Vec<ValType>,
    /// The number of parameter types.
    len_params: usize,
}

impl FuncType {
    /// The split point never exceeds the combined length.
    #[verifier::type_invariant]
    spec fn wf(self) -> bool {
        self.len_params <= self.params_results@.len()
    }

    /// The parameter types: the part of the combined sequence before the
    /// split point.
    pub closed spec fn spec_params(self) -> Seq<ValType> {
        self.params_results@.subrange(0, self.len_params as int)
    }

    /// The result types: the part of the combined sequence from the split
    /// point on.
    pub closed spec fn spec_results(self) -> Seq<ValType> {
        self.params_results@.subrange(self.len_params as int, self.params_results@.len() as int)
    }

    /// Creates a new [`FuncType`] from the given `params` and `results`.
    pub fn new(params: &[ValType], results: &[ValType]) -> (r: Self)
        ensures
            r.spec_params() == params@,
            r.spec_results() == results@,
    {
        let mut buffer = vstd::slice::slice_to_vec(params);
        let len_params = buffer.len();
        let n = results.len();
        let mut i: usize = 0;
        while i < n
            invariant
                i <= n,
                n == results@.len(),
                buffer@ == params@ + results@.subrange(0, i as int),
            decreases n - i,
        {
            buffer.push(*vstd::slice::slice_index_get(results, i));
            assert(buffer@ =~= params@ + results@.subrange(0, i as int + 1));
            i = i + 1;
        }
        assert(buffer@ =~= params@ + results@);
        let r = Self::from_parts(buffer, len_params);
        assert(r.spec_params() =~= params@);
        assert(r.spec_results() =~= results@);
        r
    }

    /// Creates a new [`FuncType`] from the combined sequence and the split
    /// point.
    pub(crate) fn from_parts(params_results: Vec<ValType>, len_params: usize) -> (r: Self)
        requires
            len_params <= params_results@.len(),
        ensures
            r.spec_params() == params_results@.subrange(0, len_params as int),
            r.spec_results() == params_results@.subrange(
                len_params as int,
                params_results@.len() as int,
            ),
    {
        FuncType { params_results, len_params }
    }

    /// Returns a shared slice to the parameter types of the [`FuncType`].
    pub fn params(&self) -> (r: &[ValType])
        ensures
            r@ == self.spec_params(),
    {
        proof {
            use_type_invariant(&*self);
        }
        vstd::slice::slice_subrange(self.params_results.as_slice(), 0, self.len_params)
    }

    /// Returns a shared slice to the result types of the [`FuncType`].
    pub fn results(&self) -> (r: &[ValType])
        ensures
            r@ == self.spec_results(),
    {
        proof {
            use_type_invariant(&*self);
        }
        let len = self.params_results.len();
        vstd::slice::slice_subrange(self.params_results.as_slice(), self.len_params, len)
    }
}

impl Clone for FuncType {
    /// A clone carries the same parameter and result types.
    fn clone(&self) -> (r: Self)
        ensures
            r.spec_params() == self.spec_params(),
            r.spec_results() == self.spec_results(),
    {
        proof {
            use_type_invariant(&*self);
        }
        let params_results = self.params_results.clone();
        assert(params_results@ =~= self.params_results@);
        FuncType { params_results, len_params: self.len_params }
    }
}

/// Represents a type of an array in a WebAssembly module.
#[derive(Clone, Copy, Debug, PartialEq, Eq, Hash)]
pub struct ArrayType(pub FieldType);

/// Represents a type of a struct in a WebAssembly module.
#[derive(Debug, Clone, PartialEq, Eq, Hash)]
pub struct StructType {
    /// Struct fields, in declaration order.
    pub fields: Vec<FieldType>,
}

/// Represents a composite type in a WebAssembly module.
#[derive(Debug, Clone)]
pub enum CompositeType {
    /// The type is for a function.
    Func(FuncType),
    /// The type is for an array.
    Array(ArrayType),
    /// The type is for a struct.
    Struct(StructType),
}

/// Represents a subtype of possible other types in a WebAssembly module.
#[derive(Debug, Clone)]
pub struct SubType {
    /// Is the subtype final.
    pub is_final: bool,
    /// The optional supertype index; there can be at most one supertype.
    pub supertype_idx: Option<u32>,
    /// The composite type of the subtype.
    pub composite_type: CompositeType,
}

/// The encodings of a sequence of value types, in order.
pub open spec fn val_types_bytes(ts: Seq<ValType>) -> Seq<u8>
    decreases ts.len(),
{
    if ts.len() == 0 {
        Seq::empty()
    } else {
        val_types_bytes(ts.drop_last()) + val_type_bytes(ts.last())
    }
}

/// The encodings of a sequence of field types, in order.
pub open spec fn field_types_bytes(fs: Seq<FieldType>) -> Seq<u8>
    decreases fs.len(),
{
    if fs.len() == 0 {
        Seq::empty()
    } else {
        field_types_bytes(fs.drop_last()) + field_type_bytes(fs.last())
    }
}

/// The encoding of a function type: byte 0x60, then the length-prefixed
/// parameter types, then the length-prefixed result types.
pub open spec fn func_type_bytes(params: Seq<ValType>, results: Seq<ValType>) -> Seq<u8> {
    seq![0x60u8] + unsigned_leb128(params.len()) + val_types_bytes(params) + unsigned_leb128(
        results.len(),
    ) + val_types_bytes(results)
}

/// The encoding of an array type: byte 0x5E, then its one field.
pub open spec fn array_type_bytes(field: FieldType) -> Seq<u8> {
    seq![0x5Eu8] + field_type_bytes(field)
}

/// The encoding of a struct type: byte 0x5F, then the length-prefixed
/// fields in declaration order.
pub open spec fn struct_type_bytes(fields: Seq<FieldType>) -> Seq<u8> {
    seq![0x5Fu8] + unsigned_leb128(fields.len()) + field_types_bytes(fields)
}

/// The encoding of a composite type: the bare function, array, or struct
/// form, with no prefix.
pub open spec fn composite_type_bytes(c: CompositeType) -> Seq<u8> {
    match c {
        CompositeType::Func(f) => func_type_bytes(f.spec_params(), f.spec_results()),
        CompositeType::Array(a) => array_type_bytes(a.0),
        CompositeType::Struct(s) => struct_type_bytes(s.fields@),
    }
}

/// The encoding of an optional supertype index: a vector of zero or one
/// index, so byte 0 if absent and byte 1 followed by the index if present.
pub open spec fn supertype_idx_bytes(idx: Option<u32>) -> Seq<u8> {
    match idx {
        Option::None => seq![0x00u8],
        Option::Some(i) => seq![0x01u8] + unsigned_leb128(i as nat),
    }
}

/// The encoding of a sub type. A final type without a declared supertype
/// is encoded as its bare composite type, with no prefix; any other sub
/// type takes a prefix byte, 0x4F if final and 0x50 if not, followed by
/// the supertype vector and the bare composite type.
pub open spec fn sub_type_bytes(s: SubType) -> Seq<u8> {
    if s.supertype_idx is Some || !s.is_final {
        seq![
            if s.is_final {
                0x4Fu8
            } else {
                0x50u8
            },
        ] + supertype_idx_bytes(s.supertype_idx) + composite_type_bytes(s.composite_type)
    } else {
        composite_type_bytes(s.composite_type)
    }
}

/// The encodings of a sequence of sub types, in order.
pub open spec fn sub_types_bytes(ts: Seq<SubType>) -> Seq<u8>
    decreases ts.len(),
{
    if ts.len() == 0 {
        Seq::empty()
    } else {
        sub_types_bytes(ts.drop_last()) + sub_type_bytes(ts.last())
    }
}

/// The encoding of a recursion group: byte 0x4E, then the count of member
/// sub types, then each member in declaration order. A group of one is
/// still framed; it is not collapsed to a bare sub type.
pub open spec fn rec_group_bytes(ts: Seq<SubType>) -> Seq<u8> {
    seq![0x4Eu8] + unsigned_leb128(ts.len()) + sub_types_bytes(ts)
}

impl CompositeType {
    /// The parameter, result, or field count fits the unsigned length
    /// convention of the format, so the type can be encoded.
    pub open spec fn encodable(self) -> bool {
        match self {
            CompositeType::Func(f) => f.spec_params().len() <= u32::MAX
                && f.spec_results().len() <= u32::MAX,
            CompositeType::Array(_) => true,
            CompositeType::Struct(s) => s.fields@.len() <= u32::MAX,
        }
    }

    /// Append this composite type's bare encoding to `sink`.
    pub fn encode(&self, sink: &mut Vec<u8>)
        requires
            self.encodable(),
        ensures
            final(sink)@ == old(sink)@ + composite_type_bytes(*self),
    {
        match self {
            CompositeType::Func(ty) => TypeSection::encode_function(sink, ty.params(), ty.results()),
            CompositeType::Array(ArrayType(ty)) => TypeSection::encode_array(
                sink,
                &ty.element_type,
                ty.mutable,
            ),
            CompositeType::Struct(ty) => TypeSection::encode_struct(sink, ty.fields.as_slice()),
        }
        assert(sink@ =~= old(sink)@ + composite_type_bytes(*self));
    }
}

impl SubType {
    /// The wrapped composite type can be encoded.
    pub open spec fn encodable(self) -> bool {
        self.composite_type.encodable()
    }

    /// Append this sub type's encoding to `sink`.
    pub fn encode(&self, sink: &mut Vec<u8>)
        requires
            self.encodable(),
        ensures
            final(sink)@ == old(sink)@ + sub_type_bytes(*self),
    {
        // A prefix byte is needed only when the type is not final or it
        // has a declared supertype.
        if self.supertype_idx.is_some() || !self.is_final {
            sink.push(if self.is_final { 0x4F } else { 0x50 });
            match self.supertype_idx {
                Option::None => sink.push(0x00),
                Option::Some(idx) => {
                    sink.push(0x01);
                    push_unsigned_leb128(sink, idx);
                },
            }
        }
        self.composite_type.encode(sink);
        assert(sink@ =~= old(sink)@ + sub_type_bytes(*self));
    }
}

/// Extending a sequence prefix by one element appends that element's
/// encoding.
proof fn lemma_val_types_bytes_snoc(ts: Seq<ValType>, i: int)
    requires
        0 <= i < ts.len(),
    ensures
        val_types_bytes(ts.subrange(0, i + 1)) == val_types_bytes(ts.subrange(0, i))
            + val_type_bytes(ts[i]),
{
    assert(ts.subrange(0, i + 1).drop_last() =~= ts.subrange(0, i));
    assert(ts.subrange(0, i + 1).last() == ts[i]);
}

/// Extending a sequence prefix by one element appends that element's
/// encoding.
proof fn lemma_field_types_bytes_snoc(fs: Seq<FieldType>, i: int)
    requires
        0 <= i < fs.len(),
    ensures
        field_types_bytes(fs.subrange(0, i + 1)) == field_types_bytes(fs.subrange(0, i))
            + field_type_bytes(fs[i]),
{
    assert(fs.subrange(0, i + 1).drop_last() =~= fs.subrange(0, i));
    assert(fs.subrange(0, i + 1).last() == fs[i]);
}

/// Extending a sequence prefix by one element appends that element's
/// encoding.
proof fn lemma_sub_types_bytes_snoc(ts: Seq<SubType>, i: int)
    requires
        0 <= i < ts.len(),
    ensures
        sub_types_bytes(ts.subrange(0, i + 1)) == sub_types_bytes(ts.subrange(0, i))
            + sub_type_bytes(ts[i]),
{
    assert(ts.subrange(0, i + 1).drop_last() =~= ts.subrange(0, i));
    assert(ts.subrange(0, i + 1).last() == ts[i]);
}

/// Append the encodings of the given value types, in order, to `sink`.
fn encode_val_types(sink: &mut Vec<u8>, types: &[ValType])
    ensures
        final(sink)@ == old(sink)@ + val_types_bytes(types@),
{
    let n = types.len();
    let mut i: usize = 0;
    assert(sink@ =~= sink@ + val_types_bytes(types@.subrange(0, 0)));
    while i < n
        invariant
            i <= n,
            n == types@.len(),
            sink@ == old(sink)@ + val_types_bytes(types@.subrange(0, i as int)),
        decreases n - i,
    {
        vstd::slice::slice_index_get(types, i).encode(sink);
        proof {
            lemma_val_types_bytes_snoc(types@, i as int);
            assert(sink@ =~= old(sink)@ + val_types_bytes(types@.subrange(0, i as int + 1)));
        }
        i = i + 1;
    }
    assert(types@.subrange(0, types@.len() as int) =~= types@);
}

/// Append the encodings of the given field types, in order, to `sink`.
fn encode_field_types(sink: &mut Vec<u8>, fields: &[FieldType])
    ensures
        final(sink)@ == old(sink)@ + field_types_bytes(fields@),
{
    let n = fields.len();
    let mut i: usize = 0;
    assert(sink@ =~= sink@ + field_types_bytes(fields@.subrange(0, 0)));
    while i < n
        invariant
            i <= n,
            n == fields@.len(),
            sink@ == old(sink)@ + field_types_bytes(fields@.subrange(0, i as int)),
        decreases n - i,
    {
        let f = vstd::slice::slice_index_get(fields, i);
        TypeSection::encode_field(sink, &f.element_type, f.mutable);
        proof {
            lemma_field_types_bytes_snoc(fields@, i as int);
            assert(sink@ =~= old(sink)@ + field_types_bytes(fields@.subrange(0, i as int + 1)));
        }
        i = i + 1;
    }
    assert(fields@.subrange(0, fields@.len() as int) =~= fields@);
}

/// Append the encodings of the given sub types, in order, to `sink`.
fn encode_sub_types(sink: &mut Vec<u8>, types: &[SubType])
    requires
        forall|i: int| 0 <= i < types@.len() ==> types@[i].encodable(),
    ensures
        final(sink)@ == old(sink)@ + sub_types_bytes(types@),
{
    let n = types.len();
    let mut i: usize = 0;
    assert(sink@ =~= sink@ + sub_types_bytes(types@.subrange(0, 0)));
    while i < n
        invariant
            i <= n,
            n == types@.len(),
            forall|j: int| 0 <= j < types@.len() ==> types@[j].encodable(),
            sink@ == old(sink)@ + sub_types_bytes(types@.subrange(0, i as int)),
        decreases n - i,
    {
        vstd::slice::slice_index_get(types, i).encode(sink);
        proof {
            lemma_sub_types_bytes_snoc(types@, i as int);
            assert(sink@ =~= old(sink)@ + sub_types_bytes(types@.subrange(0, i as int + 1)));
        }
        i = i + 1;
    }
    assert(types@.subrange(0, types@.len() as int) =~= types@);
}

/// An encoder for the type section of a WebAssembly module: an append-only
/// byte buffer together with a declaration counter. Each append encodes
/// one top-level declaration immediately; a recursion group counts as one
/// declaration regardless of its member count. The finished buffer and
/// count are read through [`TypeSection::bytes`] and [`TypeSection::len`].
#[derive(Clone, Debug)]
pub struct TypeSection {
    bytes: Vec<u8>,
    num_added: u32,
}

impl TypeSection {
    /// The encoded declarations so far.
    pub closed spec fn buf(self) -> Seq<u8> {
        self.bytes@
    }

    /// The number of declarations so far.
    pub closed spec fn count(self) -> u32 {
        self.num_added
    }

    /// Create a new module type section encoder.
    pub fn new() -> (s: Self)
        ensures
            s.count() == 0,
            s.buf() == Seq::<u8>::empty(),
    {
        TypeSection { bytes: Vec::new(), num_added: 0 }
    }

    /// The number of types in the section.
    pub fn len(&self) -> (n: u32)
        ensures
            n == self.count(),
    {
        self.num_added
    }

    /// Determines if the section is empty.
    pub fn is_empty(&self) -> (b: bool)
        ensures
            b == (self.count() == 0),
    {
        self.num_added == 0
    }

    /// The raw encoded contents of the section: what a section-framing
    /// step wraps, together with the count, into the final section bytes.
    pub fn bytes(&self) -> (r: &Vec<u8>)
        ensures
            r@ == self.buf(),
    {
        &self.bytes
    }

    /// Define a function type in this type section.
    pub fn function(&mut self, params: &[ValType], results: &[ValType])
        requires
            old(self).count() < u32::MAX,
            params@.len() <= u32::MAX,
            results@.len() <= u32::MAX,
        ensures
            final(self).buf() == old(self).buf() + func_type_bytes(params@, results@),
            final(self).count() == old(self).count() + 1,
    {
        Self::encode_function(&mut self.bytes, params, results);
        self.num_added = self.num_added + 1;
    }

    /// Append a function type's bare encoding to `sink`.
    fn encode_function(sink: &mut Vec<u8>, params: &[ValType], results: &[ValType])
        requires
            params@.len() <= u32::MAX,
            results@.len() <= u32::MAX,
        ensures
            final(sink)@ == old(sink)@ + func_type_bytes(params@, results@),
    {
        sink.push(0x60);
        push_unsigned_leb128(sink, params.len() as u32);
        encode_val_types(sink, params);
        push_unsigned_leb128(sink, results.len() as u32);
        encode_val_types(sink, results);
        assert(sink@ =~= old(sink)@ + func_type_bytes(params@, results@));
    }

    /// Define an array type in this type section.
    pub fn array(&mut self, ty: &StorageType, mutable: bool)
        requires
            old(self).count() < u32::MAX,
        ensures
            final(self).buf() == old(self).buf() + array_type_bytes(
                (FieldType { element_type: *ty, mutable }),
            ),
            final(self).count() == old(self).count() + 1,
    {
        Self::encode_array(&mut self.bytes, ty, mutable);
        self.num_added = self.num_added + 1;
    }

    /// Append an array type's bare encoding to `sink`.
    fn encode_array(sink: &mut Vec<u8>, ty: &StorageType, mutable: bool)
        ensures
            final(sink)@ == old(sink)@ + array_type_bytes(
                (FieldType { element_type: *ty, mutable }),
            ),
    {
        sink.push(0x5E);
        Self::encode_field(sink, ty, mutable);
        assert(sink@ =~= old(sink)@ + array_type_bytes((FieldType { element_type: *ty, mutable })));
    }

    /// Append a field's encoding to `sink`.
    fn encode_field(sink: &mut Vec<u8>, ty: &StorageType, mutable: bool)
        ensures
            final(sink)@ == old(sink)@ + field_type_bytes(
                (FieldType { element_type: *ty, mutable }),
            ),
    {
        ty.encode(sink);
        sink.push(if mutable { 0x01 } else { 0x00 });
        assert(sink@ =~= old(sink)@ + field_type_bytes((FieldType { element_type: *ty, mutable })));
    }

    /// Define a struct type in this type section.
    pub fn struct_(&mut self, fields: &[FieldType])
        requires
            old(self).count() < u32::MAX,
            fields@.len() <= u32::MAX,
        ensures
            final(self).buf() == old(self).buf() + struct_type_bytes(fields@),
            final(self).count() == old(self).count() + 1,
    {
        Self::encode_struct(&mut self.bytes, fields);
        self.num_added = self.num_added + 1;
    }

    /// Append a struct type's bare encoding to `sink`.
    fn encode_struct(sink: &mut Vec<u8>, fields: &[FieldType])
        requires
            fields@.len() <= u32::MAX,
        ensures
            final(sink)@ == old(sink)@ + struct_type_bytes(fields@),
    {
        sink.push(0x5F);
        push_unsigned_leb128(sink, fields.len() as u32);
        encode_field_types(sink, fields);
        assert(sink@ =~= old(sink)@ + struct_type_bytes(fields@));
    }

    /// Define an explicit sub type in this type section.
    pub fn subtype(&mut self, ty: &SubType)
        requires
            old(self).count() < u32::MAX,
            ty.encodable(),
        ensures
            final(self).buf() == old(self).buf() + sub_type_bytes(*ty),
            final(self).count() == old(self).count() + 1,
    {
        ty.encode(&mut self.bytes);
        self.num_added = self.num_added + 1;
    }

    /// Define an explicit recursion group in this type section. The group
    /// counts as one declaration, however many members it has.
    pub fn rec(&mut self, types: &[SubType])
        requires
            old(self).count() < u32::MAX,
            types@.len() <= u32::MAX,
            forall|i: int| 0 <= i < types@.len() ==> types@[i].encodable(),
        ensures
            final(self).buf() == old(self).buf() + rec_group_bytes(types@),
            final(self).count() == old(self).count() + 1,
    {
        self.bytes.push(0x4E);
        push_unsigned_leb128(&mut self.bytes, types.len() as u32);
        encode_sub_types(&mut self.bytes, types);
        self.num_added = self.num_added + 1;
        assert(self.buf() =~= old(self).buf() + rec_group_bytes(types@));
    }
}

impl Default for TypeSection {
    /// An empty type section.
    fn default() -> (s: Self)
        ensures
            s.count() == 0,
            s.buf() == Seq::<u8>::empty(),
    {
        TypeSection::new()
    }
}

/// A final sub type without a declared supertype is encoded exactly as its
/// bare composite type: no prefix byte and no supertype vector, so the
/// bytes coincide with what a pre-extension encoder would produce.
pub proof fn lemma_final_without_supertype_is_bare(s: SubType)
    requires
        s.is_final,
        s.supertype_idx is None,
    ensures
        sub_type_bytes(s) == composite_type_bytes(s.composite_type),
{
}

/// Encoding a sub type is a pure function of the value: two accumulators
/// holding the same bytes, appending the same sub type, end with the same
/// bytes.
pub proof fn lemma_sub_type_encoding_deterministic(
    buf1: Seq<u8>,
    buf2: Seq<u8>,
    t1: SubType,
    t2: SubType,
)
    requires
        buf1 == buf2,
        t1 == t2,
    ensures
        buf1 + sub_type_bytes(t1) == buf2 + sub_type_bytes(t2),
{
}

/// The first byte of a reference type's encoding is one of the two legacy
/// short forms or one of the two nullability prefixes.
pub proof fn lemma_ref_type_first_byte(r: RefType)
    ensures
        ref_type_bytes(r).len() >= 1,
        ref_type_bytes(r)[0] == 0x70 || ref_type_bytes(r)[0] == 0x6F || ref_type_bytes(r)[0]
            == 0x63 || ref_type_bytes(r)[0] == 0x64,
{
}

/// The first byte of a value type's encoding alone tells the numeric and
/// vector types apart, from each other and from every reference type: two
/// value types whose encodings share a first byte, at least one of them
/// numeric or vector, are the same type.
pub proof fn lemma_val_type_first_byte_disambiguates(v1: ValType, v2: ValType)
    requires
        !(v1 matches ValType::Ref(_)) || !(v2 matches ValType::Ref(_)),
        val_type_bytes(v1)[0] == val_type_bytes(v2)[0],
    ensures
        v1 == v2,
{
    if let ValType::Ref(r) = v1 {
        lemma_ref_type_first_byte(r);
    }
    if let ValType::Ref(r) = v2 {
        lemma_ref_type_first_byte(r);
    }
}

/// A nullable reference to the unshared abstract `func` heap type encodes
/// as the single byte 0x70, with no extension prefix.
pub proof fn lemma_funcref_short_encoding(r: RefType)
    requires
        r.nullable,
        r.heap_type == (HeapType::Abstract { shared: false, ty: AbstractHeapType::Func }),
    ensures
        ref_type_bytes(r) == seq![0x70u8],
{
}

/// A nullable reference to the unshared abstract `extern` heap type
/// encodes as the single byte 0x6F, with no extension prefix.
pub proof fn lemma_externref_short_encoding(r: RefType)
    requires
        r.nullable,
        r.heap_type == (HeapType::Abstract { shared: false, ty: AbstractHeapType::Extern }),
    ensures
        ref_type_bytes(r) == seq![0x6Fu8],
{
}

} // verus!
